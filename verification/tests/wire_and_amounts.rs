use core::str::FromStr;
use lightning_liquidity::address::{address_from_str, AddressError};
use lightning_liquidity::amount::{
	amount_from_str, amount_to_string, fee_rate_from_u32, fee_rate_to_u32,
};
use lightning_liquidity::id_map::RequestIdMap;
use lightning_liquidity::method::LSPSMethod;
use lightning_liquidity::msgs::RequestId;
use lightning_liquidity::raw::{RawLSPSMessage, RawMessageDecodeError, LSPS_MESSAGE_TYPE_ID};

#[test]
fn raw_message_type_id() {
	let m = RawLSPSMessage { payload: String::new() };
	assert_eq!(m.type_id(), 37913);
	assert_eq!(LSPS_MESSAGE_TYPE_ID, 37913);
}

#[test]
fn raw_message_is_written_without_length() {
	let m = RawLSPSMessage { payload: "{\"a\":\"é\"}".to_string() };
	assert_eq!(m.write_bytes(), "{\"a\":\"é\"}".as_bytes().to_vec());
	let empty = RawLSPSMessage { payload: String::new() };
	assert_eq!(empty.write_bytes(), Vec::<u8>::new());
}

#[test]
fn raw_message_reads_back() {
	for p in ["", "{}", "{\"jsonrpc\":\"2.0\"}", "ünïcødé ✓"] {
		let m = RawLSPSMessage { payload: p.to_string() };
		assert_eq!(RawLSPSMessage::read_bytes(&m.write_bytes()), Ok(m));
	}
}

#[test]
fn raw_message_refuses_invalid_utf8() {
	assert_eq!(RawLSPSMessage::read_bytes(&[0x7b, 0xff, 0x7d]), Err(RawMessageDecodeError::InvalidValue));
	assert_eq!(RawLSPSMessage::read_bytes(&[0xc3]), Err(RawMessageDecodeError::InvalidValue));
}

#[test]
fn amounts_as_decimal_strings() {
	assert_eq!(amount_to_string(0), "0");
	assert_eq!(amount_to_string(7), "7");
	assert_eq!(amount_to_string(1000), "1000");
	assert_eq!(amount_to_string(u64::MAX), "18446744073709551615");
}

#[test]
fn amounts_read_back() {
	for x in [0u64, 1, 9, 10, 99, 100, 5000, 123456789, u64::MAX - 1, u64::MAX] {
		assert_eq!(amount_from_str(&amount_to_string(x)), Some(x));
	}
}

#[test]
fn amounts_read_as_u64_from_str() {
	for s in ["0", "00012", "+5", "18446744073709551615", "", "+", "-1", "1 ", " 1", "12a",
		"18446744073709551616", "99999999999999999999999", "++1", "+-1", "١"]
	{
		assert_eq!(amount_from_str(s), s.parse::<u64>().ok(), "{}", s);
	}
}

#[test]
fn fee_rates_as_u32() {
	assert_eq!(fee_rate_to_u32(253), 253);
	assert_eq!(fee_rate_to_u32(u32::MAX as u64), u32::MAX);
	assert_eq!(fee_rate_to_u32(u32::MAX as u64 + 1), 0);
	assert_eq!(fee_rate_to_u32(0x1_0000_0005), 5);
	for v in [0u32, 1, 253, u32::MAX] {
		assert_eq!(fee_rate_to_u32(fee_rate_from_u32(v)), v);
	}
}

#[test]
fn request_id_map_operations() {
	let mut map = RequestIdMap::new();
	assert_eq!(map.len(), 0);
	assert_eq!(map.insert(RequestId("a".to_string()), LSPSMethod::LSPS2Buy), None);
	assert_eq!(map.insert(RequestId("b".to_string()), LSPSMethod::LSPS1GetInfo), None);
	assert_eq!(
		map.insert(RequestId("a".to_string()), LSPSMethod::LSPS2GetInfo),
		Some(LSPSMethod::LSPS2Buy)
	);
	assert_eq!(map.len(), 2);
	assert_eq!(map.get(&RequestId("a".to_string())), Some(LSPSMethod::LSPS2GetInfo));
	assert_eq!(map.remove(&RequestId("a".to_string())), Some(LSPSMethod::LSPS2GetInfo));
	assert_eq!(map.remove(&RequestId("a".to_string())), None);
	assert_eq!(map.get(&RequestId("b".to_string())), Some(LSPSMethod::LSPS1GetInfo));
	assert_eq!(map.len(), 1);
}

#[test]
fn addresses_read_as_bitcoin_reads_them() {
	for s in [
		"bc1qar0srrr7xfkvy5l643lydnw9re59gtzzwf5mdq",
		"1BvBMSEYstWetqTFn5Au4m4GFg7xJaNVN2",
		"tb1qw508d6qejxtdg4y5r3zarvary0c5xw7kxpjzsx",
	] {
		let expected = bitcoin::Address::from_str(s).unwrap().assume_checked();
		let parsed = address_from_str(s).unwrap();
		assert_eq!(parsed.text(), &expected.to_string());
		assert_eq!(parsed.text(), s);
		assert_eq!(parsed.address().inner, expected);
	}
	for s in ["", "bc1qar0srrr7xfkvy5l643lydnw9re59gtzzwf5mdx", "not an address"] {
		assert!(bitcoin::Address::from_str(s).is_err());
		assert_eq!(address_from_str(s).err(), Some(AddressError::InvalidAddress));
	}
}
