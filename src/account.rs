//! Ledger identity names: the runtime's naming rules and child derivation.
use vstd::prelude::*;
use vstd::utf8::encode_utf8;

verus! {

/// Fewest bytes in a valid identity name.
pub const MIN_ACCOUNT_ID_LEN: u64 = 2;

/// Most bytes in a valid identity name.
pub const MAX_ACCOUNT_ID_LEN: u64 = 64;

/// A byte that may stand anywhere in a name part: `a`..=`z` or `0`..=`9`.
pub open spec fn is_name_byte(c: u8) -> bool {
    (97 <= c && c <= 122) || (48 <= c && c <= 57)
}

/// A byte that separates two runs of name bytes: `-`, `_` or `.`.
pub open spec fn is_separator_byte(c: u8) -> bool {
    c == 45 || c == 95 || c == 46
}

/// The runtime's rule for identity names, over their UTF-8 bytes: 2 to 64
/// bytes of `[a-z0-9._-]`, beginning and ending with a name byte, with no two
/// separators next to each other.
pub open spec fn valid_account_id(b: Seq<u8>) -> bool {
    &&& MIN_ACCOUNT_ID_LEN <= b.len() <= MAX_ACCOUNT_ID_LEN
    &&& forall|i: int| 0 <= i < b.len() ==> is_name_byte(#[trigger] b[i]) || is_separator_byte(b[i])
    &&& !is_separator_byte(b[0])
    &&& !is_separator_byte(b[b.len() - 1])
    &&& forall|i: int|
        0 <= i < b.len() - 1 ==> !(is_separator_byte(#[trigger] b[i]) && is_separator_byte(b[i + 1]))
}

/// Relies on near_sdk::env::is_valid_account_id, a pure check of the bytes
/// against the runtime's naming rule (it makes no host call).
pub assume_specification[ near_sdk::env::is_valid_account_id ](account_id: &[u8]) -> (r: bool)
    ensures
        r == valid_account_id(account_id@),
;

/// The identity of the child named `name` under the factory `namespace`.
pub open spec fn child_identity(name: Seq<char>, namespace: Seq<char>) -> Seq<char> {
    name + seq!['.'] + namespace
}

/// Derives the child's identity, `"<name>.<namespace>"`.
pub fn child_account_id(name: &str, namespace: &str) -> (r: String)
    ensures
        r@ == child_identity(name@, namespace@),
{
    let mut r = String::from_str(name);
    r.append(".");
    r.append(namespace);
    proof {
        reveal_strlit(".");
    }
    r
}

/// Tells whether `id` is a valid identity name under the runtime's rule.
pub fn is_valid_account_name(id: &str) -> (r: bool)
    ensures
        r == valid_account_id(encode_utf8(id@)),
{
    near_sdk::env::is_valid_account_id(id.as_bytes())
}

} // verus!
