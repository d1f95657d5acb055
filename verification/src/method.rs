//! The JSON-RPC methods of the LSPS protocols and their wire names.

use vstd::prelude::*;

verus! {

/// A JSON-RPC method of one of the LSPS protocols.
#[derive(Copy, Clone, Debug, PartialEq, Eq, Structural)]
pub enum LSPSMethod {
    LSPS0ListProtocols,
    LSPS1GetInfo,
    LSPS1GetOrder,
    LSPS1CreateOrder,
    LSPS2GetInfo,
    LSPS2Buy,
    LSPS5SetWebhook,
    LSPS5ListWebhooks,
    LSPS5RemoveWebhook,
    LSPS5WebhookRegistered,
    LSPS5PaymentIncoming,
    LSPS5ExpirySoon,
    LSPS5LiquidityManagementRequest,
    LSPS5FeesChangeIncoming,
    LSPS5OnionMessageIncoming,
}

/// The error text of `LSPSMethod::from_str` for a name that belongs to no method.
pub open spec fn unknown_method_name_text() -> Seq<char> {
    "Unknown method name"@
}

impl LSPSMethod {
    /// The wire name of the method, as the LSPS specifications write it.
    pub open spec fn name(self) -> Seq<char> {
        match self {
            LSPSMethod::LSPS0ListProtocols => "lsps0.list_protocols"@,
            LSPSMethod::LSPS1GetInfo => "lsps1.get_info"@,
            LSPSMethod::LSPS1CreateOrder => "lsps1.create_order"@,
            LSPSMethod::LSPS1GetOrder => "lsps1.get_order"@,
            LSPSMethod::LSPS2GetInfo => "lsps2.get_info"@,
            LSPSMethod::LSPS2Buy => "lsps2.buy"@,
            LSPSMethod::LSPS5SetWebhook => "lsps5.set_webhook"@,
            LSPSMethod::LSPS5ListWebhooks => "lsps5.list_webhooks"@,
            LSPSMethod::LSPS5RemoveWebhook => "lsps5.remove_webhook"@,
            LSPSMethod::LSPS5WebhookRegistered => "lsps5.webhook_registered"@,
            LSPSMethod::LSPS5PaymentIncoming => "lsps5.payment_incoming"@,
            LSPSMethod::LSPS5ExpirySoon => "lsps5.expiry_soon"@,
            LSPSMethod::LSPS5LiquidityManagementRequest => "lsps5.liquidity_management_request"@,
            LSPSMethod::LSPS5FeesChangeIncoming => "lsps5.fees_change_incoming"@,
            LSPSMethod::LSPS5OnionMessageIncoming => "lsps5.onion_message_incoming"@,
        }
    }

    /// Whether the method is one of the notifications that a service sends
    /// without a request id.
    pub open spec fn is_notification(self) -> bool {
        match self {
            LSPSMethod::LSPS5WebhookRegistered | LSPSMethod::LSPS5PaymentIncoming
            | LSPSMethod::LSPS5ExpirySoon | LSPSMethod::LSPS5LiquidityManagementRequest
            | LSPSMethod::LSPS5FeesChangeIncoming | LSPSMethod::LSPS5OnionMessageIncoming => true,
            _ => false,
        }
    }

    /// Whether a response to a request of this method may carry an error
    /// object in place of a result.
    pub open spec fn has_error_response(self) -> bool {
        !self.is_notification() && self != LSPSMethod::LSPS5ListWebhooks
    }

    /// The name of the variant, as `{:?}` prints it.
    pub open spec fn variant_name(self) -> Seq<char> {
        match self {
            LSPSMethod::LSPS0ListProtocols => "LSPS0ListProtocols"@,
            LSPSMethod::LSPS1GetInfo => "LSPS1GetInfo"@,
            LSPSMethod::LSPS1CreateOrder => "LSPS1CreateOrder"@,
            LSPSMethod::LSPS1GetOrder => "LSPS1GetOrder"@,
            LSPSMethod::LSPS2GetInfo => "LSPS2GetInfo"@,
            LSPSMethod::LSPS2Buy => "LSPS2Buy"@,
            LSPSMethod::LSPS5SetWebhook => "LSPS5SetWebhook"@,
            LSPSMethod::LSPS5ListWebhooks => "LSPS5ListWebhooks"@,
            LSPSMethod::LSPS5RemoveWebhook => "LSPS5RemoveWebhook"@,
            LSPSMethod::LSPS5WebhookRegistered => "LSPS5WebhookRegistered"@,
            LSPSMethod::LSPS5PaymentIncoming => "LSPS5PaymentIncoming"@,
            LSPSMethod::LSPS5ExpirySoon => "LSPS5ExpirySoon"@,
            LSPSMethod::LSPS5LiquidityManagementRequest => "LSPS5LiquidityManagementRequest"@,
            LSPSMethod::LSPS5FeesChangeIncoming => "LSPS5FeesChangeIncoming"@,
            LSPSMethod::LSPS5OnionMessageIncoming => "LSPS5OnionMessageIncoming"@,
        }
    }

    /// Whether the method is one of the notifications.
    pub fn is_notification_method(&self) -> (b: bool)
        ensures
            b == self.is_notification(),
    {
        match self {
            LSPSMethod::LSPS5WebhookRegistered | LSPSMethod::LSPS5PaymentIncoming
            | LSPSMethod::LSPS5ExpirySoon | LSPSMethod::LSPS5LiquidityManagementRequest
            | LSPSMethod::LSPS5FeesChangeIncoming | LSPSMethod::LSPS5OnionMessageIncoming => true,
            _ => false,
        }
    }

    /// Returns the name of the variant, as `{:?}` prints it.
    pub fn debug_name(&self) -> (name: &'static str)
        ensures
            name@ == self.variant_name(),
    {
        match self {
            LSPSMethod::LSPS0ListProtocols => "LSPS0ListProtocols",
            LSPSMethod::LSPS1GetInfo => "LSPS1GetInfo",
            LSPSMethod::LSPS1CreateOrder => "LSPS1CreateOrder",
            LSPSMethod::LSPS1GetOrder => "LSPS1GetOrder",
            LSPSMethod::LSPS2GetInfo => "LSPS2GetInfo",
            LSPSMethod::LSPS2Buy => "LSPS2Buy",
            LSPSMethod::LSPS5SetWebhook => "LSPS5SetWebhook",
            LSPSMethod::LSPS5ListWebhooks => "LSPS5ListWebhooks",
            LSPSMethod::LSPS5RemoveWebhook => "LSPS5RemoveWebhook",
            LSPSMethod::LSPS5WebhookRegistered => "LSPS5WebhookRegistered",
            LSPSMethod::LSPS5PaymentIncoming => "LSPS5PaymentIncoming",
            LSPSMethod::LSPS5ExpirySoon => "LSPS5ExpirySoon",
            LSPSMethod::LSPS5LiquidityManagementRequest => "LSPS5LiquidityManagementRequest",
            LSPSMethod::LSPS5FeesChangeIncoming => "LSPS5FeesChangeIncoming",
            LSPSMethod::LSPS5OnionMessageIncoming => "LSPS5OnionMessageIncoming",
        }
    }

    /// Returns the wire name of the method.
    pub fn as_static_str(&self) -> (name: &'static str)
        ensures
            name@ == self.name(),
    {
        match self {
            LSPSMethod::LSPS0ListProtocols => "lsps0.list_protocols",
            LSPSMethod::LSPS1GetInfo => "lsps1.get_info",
            LSPSMethod::LSPS1CreateOrder => "lsps1.create_order",
            LSPSMethod::LSPS1GetOrder => "lsps1.get_order",
            LSPSMethod::LSPS2GetInfo => "lsps2.get_info",
            LSPSMethod::LSPS2Buy => "lsps2.buy",
            LSPSMethod::LSPS5SetWebhook => "lsps5.set_webhook",
            LSPSMethod::LSPS5ListWebhooks => "lsps5.list_webhooks",
            LSPSMethod::LSPS5RemoveWebhook => "lsps5.remove_webhook",
            LSPSMethod::LSPS5WebhookRegistered => "lsps5.webhook_registered",
            LSPSMethod::LSPS5PaymentIncoming => "lsps5.payment_incoming",
            LSPSMethod::LSPS5ExpirySoon => "lsps5.expiry_soon",
            LSPSMethod::LSPS5LiquidityManagementRequest => "lsps5.liquidity_management_request",
            LSPSMethod::LSPS5FeesChangeIncoming => "lsps5.fees_change_incoming",
            LSPSMethod::LSPS5OnionMessageIncoming => "lsps5.onion_message_incoming",
        }
    }
}

/// The method whose wire name is `s`, if any.
pub open spec fn method_named(s: Seq<char>) -> Option<LSPSMethod> {
    if exists|m: LSPSMethod| #[trigger] m.name() == s {
        Some(choose|m: LSPSMethod| #[trigger] m.name() == s)
    } else {
        None
    }
}

/// Length and two characters of a wire name; they tell every pair of methods apart.
spec fn name_signature(m: LSPSMethod) -> (nat, char, char) {
    (m.name().len(), m.name()[4], m.name()[6])
}

proof fn lemma_name_signature(m: LSPSMethod)
    ensures
        name_signature(m) == match m {
            LSPSMethod::LSPS0ListProtocols => (20nat, '0', 'l'),
            LSPSMethod::LSPS1GetInfo => (14nat, '1', 'g'),
            LSPSMethod::LSPS1CreateOrder => (18nat, '1', 'c'),
            LSPSMethod::LSPS1GetOrder => (15nat, '1', 'g'),
            LSPSMethod::LSPS2GetInfo => (14nat, '2', 'g'),
            LSPSMethod::LSPS2Buy => (9nat, '2', 'b'),
            LSPSMethod::LSPS5SetWebhook => (17nat, '5', 's'),
            LSPSMethod::LSPS5ListWebhooks => (19nat, '5', 'l'),
            LSPSMethod::LSPS5RemoveWebhook => (20nat, '5', 'r'),
            LSPSMethod::LSPS5WebhookRegistered => (24nat, '5', 'w'),
            LSPSMethod::LSPS5PaymentIncoming => (22nat, '5', 'p'),
            LSPSMethod::LSPS5ExpirySoon => (17nat, '5', 'e'),
            LSPSMethod::LSPS5LiquidityManagementRequest => (34nat, '5', 'l'),
            LSPSMethod::LSPS5FeesChangeIncoming => (26nat, '5', 'f'),
            LSPSMethod::LSPS5OnionMessageIncoming => (28nat, '5', 'o'),
        },
{
    match m {
        LSPSMethod::LSPS0ListProtocols => {
            reveal_strlit("lsps0.list_protocols");
        },
        LSPSMethod::LSPS1GetInfo => {
            reveal_strlit("lsps1.get_info");
        },
        LSPSMethod::LSPS1CreateOrder => {
            reveal_strlit("lsps1.create_order");
        },
        LSPSMethod::LSPS1GetOrder => {
            reveal_strlit("lsps1.get_order");
        },
        LSPSMethod::LSPS2GetInfo => {
            reveal_strlit("lsps2.get_info");
        },
        LSPSMethod::LSPS2Buy => {
            reveal_strlit("lsps2.buy");
        },
        LSPSMethod::LSPS5SetWebhook => {
            reveal_strlit("lsps5.set_webhook");
        },
        LSPSMethod::LSPS5ListWebhooks => {
            reveal_strlit("lsps5.list_webhooks");
        },
        LSPSMethod::LSPS5RemoveWebhook => {
            reveal_strlit("lsps5.remove_webhook");
        },
        LSPSMethod::LSPS5WebhookRegistered => {
            reveal_strlit("lsps5.webhook_registered");
        },
        LSPSMethod::LSPS5PaymentIncoming => {
            reveal_strlit("lsps5.payment_incoming");
        },
        LSPSMethod::LSPS5ExpirySoon => {
            reveal_strlit("lsps5.expiry_soon");
        },
        LSPSMethod::LSPS5LiquidityManagementRequest => {
            reveal_strlit("lsps5.liquidity_management_request");
        },
        LSPSMethod::LSPS5FeesChangeIncoming => {
            reveal_strlit("lsps5.fees_change_incoming");
        },
        LSPSMethod::LSPS5OnionMessageIncoming => {
            reveal_strlit("lsps5.onion_message_incoming");
        },
    }
}

/// No two methods share a wire name.
pub proof fn lemma_method_names_distinct(m1: LSPSMethod, m2: LSPSMethod)
    ensures
        m1.name() == m2.name() ==> m1 == m2,
{
    lemma_name_signature(m1);
    lemma_name_signature(m2);
}

/// Parsing the wire name of a method gives back that method.
pub proof fn lemma_method_name_roundtrip(m: LSPSMethod)
    ensures
        method_named(m.name()) == Some(m),
{
    let c = choose|x: LSPSMethod| #[trigger] x.name() == m.name();
    lemma_method_names_distinct(c, m);
}

/// Whether two texts are the same sequence of characters.
pub(crate) fn same_text(a: &str, b: &str) -> (same: bool)
    ensures
        same == (a@ == b@),
{
    a.to_owned() == b.to_owned()
}

impl LSPSMethod {
    /// Parses a wire name into the method it names.
    pub fn from_str(s: &str) -> (res: Result<LSPSMethod, &'static str>)
        ensures
            res matches Ok(m) ==> method_named(s@) == Some(m),
            res matches Err(e) ==> e@ == unknown_method_name_text() && method_named(s@) is None,
    {
        let all = [
            LSPSMethod::LSPS0ListProtocols,
            LSPSMethod::LSPS1GetInfo,
            LSPSMethod::LSPS1CreateOrder,
            LSPSMethod::LSPS1GetOrder,
            LSPSMethod::LSPS2GetInfo,
            LSPSMethod::LSPS2Buy,
            LSPSMethod::LSPS5SetWebhook,
            LSPSMethod::LSPS5ListWebhooks,
            LSPSMethod::LSPS5RemoveWebhook,
            LSPSMethod::LSPS5WebhookRegistered,
            LSPSMethod::LSPS5PaymentIncoming,
            LSPSMethod::LSPS5ExpirySoon,
            LSPSMethod::LSPS5LiquidityManagementRequest,
            LSPSMethod::LSPS5FeesChangeIncoming,
            LSPSMethod::LSPS5OnionMessageIncoming,
        ];
        let mut i: usize = 0;
        while i < 15
            invariant
                0 <= i <= 15,
                all@.len() == 15,
                forall|j: int| 0 <= j < i ==> (#[trigger] all@[j]).name() != s@,
            decreases 15 - i,
        {
            let m = all[i];
            if same_text(m.as_static_str(), s) {
                proof {
                    lemma_method_name_roundtrip(m);
                }
                return Ok(m);
            }
            i = i + 1;
        }
        assert forall|m: LSPSMethod| #[trigger] m.name() != s@ by {
            match m {
                LSPSMethod::LSPS0ListProtocols => assert(all@[0].name() != s@),
                LSPSMethod::LSPS1GetInfo => assert(all@[1].name() != s@),
                LSPSMethod::LSPS1CreateOrder => assert(all@[2].name() != s@),
                LSPSMethod::LSPS1GetOrder => assert(all@[3].name() != s@),
                LSPSMethod::LSPS2GetInfo => assert(all@[4].name() != s@),
                LSPSMethod::LSPS2Buy => assert(all@[5].name() != s@),
                LSPSMethod::LSPS5SetWebhook => assert(all@[6].name() != s@),
                LSPSMethod::LSPS5ListWebhooks => assert(all@[7].name() != s@),
                LSPSMethod::LSPS5RemoveWebhook => assert(all@[8].name() != s@),
                LSPSMethod::LSPS5WebhookRegistered => assert(all@[9].name() != s@),
                LSPSMethod::LSPS5PaymentIncoming => assert(all@[10].name() != s@),
                LSPSMethod::LSPS5ExpirySoon => assert(all@[11].name() != s@),
                LSPSMethod::LSPS5LiquidityManagementRequest => assert(all@[12].name() != s@),
                LSPSMethod::LSPS5FeesChangeIncoming => assert(all@[13].name() != s@),
                LSPSMethod::LSPS5OnionMessageIncoming => assert(all@[14].name() != s@),
            }
        }
        proof {
            reveal_strlit("Unknown method name");
        }
        Err("Unknown method name")
    }
}

} // verus!
