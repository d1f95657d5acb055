use lightning_liquidity::method::LSPSMethod;

const ALL: [LSPSMethod; 15] = [
	LSPSMethod::LSPS0ListProtocols,
	LSPSMethod::LSPS1GetInfo,
	LSPSMethod::LSPS1GetOrder,
	LSPSMethod::LSPS1CreateOrder,
	LSPSMethod::LSPS2GetInfo,
	LSPSMethod::LSPS2Buy,
	LSPSMethod::LSPS5SetWebhook,
	LSPSMethod::LSPS5ListWebhooks,
	LSPSMethod::LSPS5RemoveWebhook,
	LSPSMethod::LSPS5WebhookRegistered,
	LSPSMethod::LSPS5PaymentIncoming,
	LSPSMethod::LSPS5ExpirySoon,
	LSPSMethod::LSPS5LiquidityManagementRequest,
	LSPSMethod::LSPS5FeesChangeIncoming,
	LSPSMethod::LSPS5OnionMessageIncoming,
];

#[test]
fn wire_names_of_methods() {
	assert_eq!(LSPSMethod::LSPS0ListProtocols.as_static_str(), "lsps0.list_protocols");
	assert_eq!(LSPSMethod::LSPS1GetInfo.as_static_str(), "lsps1.get_info");
	assert_eq!(LSPSMethod::LSPS1CreateOrder.as_static_str(), "lsps1.create_order");
	assert_eq!(LSPSMethod::LSPS1GetOrder.as_static_str(), "lsps1.get_order");
	assert_eq!(LSPSMethod::LSPS2GetInfo.as_static_str(), "lsps2.get_info");
	assert_eq!(LSPSMethod::LSPS2Buy.as_static_str(), "lsps2.buy");
	assert_eq!(LSPSMethod::LSPS5SetWebhook.as_static_str(), "lsps5.set_webhook");
	assert_eq!(LSPSMethod::LSPS5ListWebhooks.as_static_str(), "lsps5.list_webhooks");
	assert_eq!(LSPSMethod::LSPS5RemoveWebhook.as_static_str(), "lsps5.remove_webhook");
	assert_eq!(LSPSMethod::LSPS5WebhookRegistered.as_static_str(), "lsps5.webhook_registered");
	assert_eq!(LSPSMethod::LSPS5PaymentIncoming.as_static_str(), "lsps5.payment_incoming");
	assert_eq!(LSPSMethod::LSPS5ExpirySoon.as_static_str(), "lsps5.expiry_soon");
	assert_eq!(
		LSPSMethod::LSPS5LiquidityManagementRequest.as_static_str(),
		"lsps5.liquidity_management_request"
	);
	assert_eq!(
		LSPSMethod::LSPS5FeesChangeIncoming.as_static_str(),
		"lsps5.fees_change_incoming"
	);
	assert_eq!(
		LSPSMethod::LSPS5OnionMessageIncoming.as_static_str(),
		"lsps5.onion_message_incoming"
	);
}

#[test]
fn parsing_a_wire_name_gives_back_the_method() {
	for m in ALL {
		assert_eq!(LSPSMethod::from_str(m.as_static_str()), Ok(m));
	}
}

#[test]
fn wire_names_are_distinct() {
	for a in ALL {
		for b in ALL {
			assert_eq!(a == b, a.as_static_str() == b.as_static_str());
		}
	}
}

#[test]
fn unknown_method_names_are_refused() {
	assert_eq!(LSPSMethod::from_str("lsps3.get_info"), Err("Unknown method name"));
	assert_eq!(LSPSMethod::from_str(""), Err("Unknown method name"));
	assert_eq!(LSPSMethod::from_str("LSPS0.LIST_PROTOCOLS"), Err("Unknown method name"));
	assert_eq!(LSPSMethod::from_str("lsps0.list_protocols "), Err("Unknown method name"));
}

#[test]
fn debug_names_match_the_derived_debug() {
	for m in ALL {
		assert_eq!(m.debug_name(), format!("{:?}", m));
	}
}
