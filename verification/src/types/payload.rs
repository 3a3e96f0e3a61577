use vstd::prelude::*;
use crate::types::extensions::{prefixed_hex_text, texts, to_hex};

verus! {

/// A JSON object of serde_json.
#[verifier::external_type_specification]
#[verifier::external_body]
#[verifier::reject_recursive_types(K)]
#[verifier::reject_recursive_types(V)]
pub struct ExJsonMap<K, V>(serde_json::Map<K, V>);

/// A JSON value of serde_json.
#[verifier::external_type_specification]
#[verifier::external_body]
pub struct ExJsonValue(serde_json::Value);

/// A JSON object under construction.
pub type JsonObject = serde_json::Map<String, serde_json::Value>;

/// A value in the payload: a text, a list of texts or a number.
pub enum JsonValue {
    Text(Seq<char>),
    List(Seq<Seq<char>>),
    Number(u64),
}

/// What a JSON object holds: its values by name.
pub uninterp spec fn json_fields(object: JsonObject) -> Map<Seq<char>, JsonValue>;

/// The compact JSON text of an object that holds the given values.
/// serde_json writes the members in the order of their names.
pub uninterp spec fn json_object_text(fields: Map<Seq<char>, JsonValue>) -> Seq<char>;

/// No values.
pub open spec fn no_fields() -> Map<Seq<char>, JsonValue> {
    Map::empty()
}

/// `Map::new` of serde_json: an object without members.
#[verifier::external_body]
fn json_new() -> (r: JsonObject)
    ensures
        json_fields(r) == no_fields(),
{
    serde_json::Map::new()
}

/// `Map::insert` of serde_json with a text as the value: the member is
/// added, or replaced where the name was in use.
#[verifier::external_body]
fn json_put_text(object: &mut JsonObject, name: &str, text: &str)
    ensures
        json_fields(*final(object)) == json_fields(*old(object)).insert(
            name@,
            JsonValue::Text(text@),
        ),
{
    object.insert(name.to_string(), serde_json::Value::from(text));
}

/// `Map::insert` of serde_json with a list of texts as the value.
#[verifier::external_body]
fn json_put_list(
    object: &mut JsonObject,
    name: &str,
    items: &Vec<String>,
)
    ensures
        json_fields(*final(object)) == json_fields(*old(object)).insert(
            name@,
            JsonValue::List(texts(items@)),
        ),
{
    object.insert(name.to_string(), serde_json::Value::from(items.clone()));
}

/// `Map::insert` of serde_json with a number as the value.
#[verifier::external_body]
fn json_put_number(object: &mut JsonObject, name: &str, number: u64)
    ensures
        json_fields(*final(object)) == json_fields(*old(object)).insert(
            name@,
            JsonValue::Number(number),
        ),
{
    object.insert(name.to_string(), serde_json::Value::from(number));
}

/// `to_string` of a serde_json object: its compact JSON text.
#[verifier::external_body]
fn json_text(object: JsonObject) -> (r: String)
    ensures
        r@ == json_object_text(json_fields(object)),
{
    serde_json::Value::Object(object).to_string()
}

/// The `width` low bytes of a number, most significant first.
pub open spec fn be_bytes(value: nat, width: nat) -> Seq<u8>
    decreases width,
{
    if width == 0 {
        Seq::empty()
    } else {
        be_bytes(value / 256, (width - 1) as nat).push((value % 256) as u8)
    }
}

pub fn to_be_bytes(value: u64, width: u8) -> (r: Vec<u8>)
    ensures
        r@ == be_bytes(value as nat, width as nat),
    decreases width,
{
    if width == 0 {
        Vec::new()
    } else {
        let mut out = to_be_bytes(value / 256, width - 1);
        out.push((value % 256) as u8);
        out
    }
}

/// The era of a transaction that never expires, and a tip of nothing,
/// each a single zero byte in the chain's encoding.
pub const ZERO_BYTE_HEX: &'static str = "0x00";

/// The number of the block that an immortal transaction refers to.
pub const GENESIS_BLOCK_NUMBER_HEX: &'static str = "0x00000000";

/// The version of the payload format.
pub const PAYLOAD_VERSION: u64 = 4;

/// What a wallet extension is given to sign: the versions of the runtime
/// and of the transaction format, the signer, the genesis block as the
/// block referred to, an era that never expires, the call, the signer's
/// nonce, the signed extensions of the runtime, no tip, and the version
/// of the payload format. Byte fields are hexadecimal behind `0x`.
pub open spec fn payload_fields(
    genesis_hash: Seq<u8>,
    spec_version: u32,
    transaction_version: u32,
    call_data: Seq<u8>,
    account_nonce: u64,
    account_address: Seq<char>,
    signed_extensions: Seq<Seq<char>>,
) -> Map<Seq<char>, JsonValue> {
    no_fields().insert(
        "specVersion"@,
        JsonValue::Text(prefixed_hex_text(be_bytes(spec_version as nat, 4))),
    ).insert(
        "transactionVersion"@,
        JsonValue::Text(prefixed_hex_text(be_bytes(transaction_version as nat, 4))),
    ).insert("address"@, JsonValue::Text(account_address)).insert(
        "blockHash"@,
        JsonValue::Text(prefixed_hex_text(genesis_hash)),
    ).insert("blockNumber"@, JsonValue::Text(GENESIS_BLOCK_NUMBER_HEX@)).insert(
        "era"@,
        JsonValue::Text(ZERO_BYTE_HEX@),
    ).insert("genesisHash"@, JsonValue::Text(prefixed_hex_text(genesis_hash))).insert(
        "method"@,
        JsonValue::Text(prefixed_hex_text(call_data)),
    ).insert(
        "nonce"@,
        JsonValue::Text(prefixed_hex_text(be_bytes(account_nonce as nat, 8))),
    ).insert("signedExtensions"@, JsonValue::List(signed_extensions)).insert(
        "tip"@,
        JsonValue::Text(ZERO_BYTE_HEX@),
    ).insert("version"@, JsonValue::Number(PAYLOAD_VERSION))
}

/// The payload for a wallet extension to sign, as JSON text.
pub fn create_payload_as_string(
    genesis_hash: &Vec<u8>,
    spec_version: u32,
    transaction_version: u32,
    call_data: &Vec<u8>,
    account_nonce: u64,
    account_address: &str,
    signed_extensions: &Vec<String>,
) -> (r: String)
    ensures
        r@ == json_object_text(
            payload_fields(
                genesis_hash@,
                spec_version,
                transaction_version,
                call_data@,
                account_nonce,
                account_address@,
                texts(signed_extensions@),
            ),
        ),
{
    let genesis = to_hex(genesis_hash.as_slice());
    let spec = to_hex(to_be_bytes(spec_version as u64, 4).as_slice());
    let transaction = to_hex(to_be_bytes(transaction_version as u64, 4).as_slice());
    let nonce = to_hex(to_be_bytes(account_nonce, 8).as_slice());
    let method = to_hex(call_data.as_slice());
    let mut object = json_new();
    json_put_text(&mut object, "specVersion", spec.as_str());
    json_put_text(&mut object, "transactionVersion", transaction.as_str());
    json_put_text(&mut object, "address", account_address);
    json_put_text(&mut object, "blockHash", genesis.as_str());
    json_put_text(&mut object, "blockNumber", GENESIS_BLOCK_NUMBER_HEX);
    json_put_text(&mut object, "era", ZERO_BYTE_HEX);
    json_put_text(&mut object, "genesisHash", genesis.as_str());
    json_put_text(&mut object, "method", method.as_str());
    json_put_text(&mut object, "nonce", nonce.as_str());
    json_put_list(&mut object, "signedExtensions", signed_extensions);
    json_put_text(&mut object, "tip", ZERO_BYTE_HEX);
    json_put_number(&mut object, "version", PAYLOAD_VERSION);
    proof {
        let wanted = payload_fields(
            genesis_hash@,
            spec_version,
            transaction_version,
            call_data@,
            account_nonce,
            account_address@,
            texts(signed_extensions@),
        );
        assert(json_fields(object) =~= wanted);
    }
    json_text(object)
}

} // verus!
