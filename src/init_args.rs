//! The argument payload handed to the child's initialization entry point.
use vstd::prelude::*;

verus! {

/// What serde_json writes for a string: one JSON string literal, quoted and
/// escaped.
pub uninterp spec fn json_string_literal(s: Seq<char>) -> Seq<char>;

/// Relies on serde_json's `Display` for `Value::String`: it writes the string
/// as one JSON string literal; the text depends on the characters alone.
#[verifier::external_body]
fn json_quote(s: &str) -> (r: String)
    ensures
        r@ == json_string_literal(s@),
{
    serde_json::Value::String(s.to_string()).to_string()
}

/// The decimal digit `d`.
pub open spec fn digit_char(d: nat) -> char {
    seq!['0', '1', '2', '3', '4', '5', '6', '7', '8', '9'][d as int]
}

/// The decimal text of `n`, without leading zeros.
pub open spec fn decimal(n: nat) -> Seq<char>
    decreases n,
{
    if n < 10 {
        seq![digit_char(n)]
    } else {
        decimal(n / 10).push(digit_char(n % 10))
    }
}

/// Relies on `u128::to_string` (its `Display`): the decimal digits of the
/// number, with no sign, padding or leading zeros.
#[verifier::external_body]
fn decimal_text(n: u128) -> (r: String)
    ensures
        r@ == decimal(n as nat),
{
    n.to_string()
}

/// The initialization request sent to a new child.
pub enum InitArgs {
    /// The default initialization: the minting owner alone.
    DefaultInit { owner_id: String },
    /// The full initialization. `metadata` and `token_metadata` are JSON
    /// texts, forwarded as they are.
    CustomInit {
        owner_id: String,
        metadata: String,
        token_metadata: String,
        minting_price: u128,
        perpetual_royalties: Option<Vec<(String, u32)>>,
    },
}

/// The royalty table as (beneficiary, share) pairs.
pub open spec fn royalties_view(v: Seq<(String, u32)>) -> Seq<(Seq<char>, u32)> {
    v.map_values(|p: (String, u32)| (p.0@, p.1))
}

/// One `"beneficiary":share` member of the royalty object.
pub open spec fn royalty_member(p: (Seq<char>, u32)) -> Seq<char> {
    json_string_literal(p.0) + ":"@ + decimal(p.1 as nat)
}

/// The members of the royalty object, separated by commas, in the given order.
pub open spec fn royalty_members(s: Seq<(Seq<char>, u32)>) -> Seq<char>
    decreases s.len(),
{
    if s.len() == 0 {
        Seq::empty()
    } else if s.len() == 1 {
        royalty_member(s[0])
    } else {
        royalty_members(s.drop_last()) + ","@ + royalty_member(s.last())
    }
}

/// The royalty table as JSON: `null` where there is none, else an object.
pub open spec fn royalties_json(r: Option<Seq<(Seq<char>, u32)>>) -> Seq<char> {
    match r {
        None => "null"@,
        Some(s) => "{"@ + royalty_members(s) + "}"@,
    }
}

/// The default payload around the owner's JSON literal.
pub open spec fn default_args_json(owner_literal: Seq<char>) -> Seq<char> {
    "{\"owner_id\":"@ + owner_literal + "}"@
}

/// The full payload around its parts, keys in lexicographic order; the price
/// is written as a JSON string of its decimal digits.
pub open spec fn custom_args_json(
    metadata: Seq<char>,
    minting_price: nat,
    owner_literal: Seq<char>,
    royalties: Seq<char>,
    token_metadata: Seq<char>,
) -> Seq<char> {
    "{\"metadata\":"@ + metadata + ",\"minting_price\":\""@ + decimal(minting_price)
        + "\",\"owner_id\":"@ + owner_literal + ",\"perpetual_royalties\":"@ + royalties
        + ",\"token_metadata\":"@ + token_metadata + "}"@
}

impl InitArgs {
    /// The entry point of the child that this request invokes.
    pub open spec fn spec_method_name(&self) -> Seq<char> {
        match self {
            InitArgs::DefaultInit { .. } => "new_default_meta"@,
            InitArgs::CustomInit { .. } => "new"@,
        }
    }

    /// The JSON payload of this request.
    pub open spec fn spec_json(&self) -> Seq<char> {
        match self {
            InitArgs::DefaultInit { owner_id } => default_args_json(json_string_literal(owner_id@)),
            InitArgs::CustomInit {
                owner_id,
                metadata,
                token_metadata,
                minting_price,
                perpetual_royalties,
            } => custom_args_json(
                metadata@,
                *minting_price as nat,
                json_string_literal(owner_id@),
                royalties_json(
                    match perpetual_royalties {
                        None => None,
                        Some(v) => Some(royalties_view(v@)),
                    },
                ),
                token_metadata@,
            ),
        }
    }

    /// The entry point of the child that this request invokes.
    pub fn method_name(&self) -> (r: String)
        ensures
            r@ == self.spec_method_name(),
    {
        match self {
            InitArgs::DefaultInit { .. } => String::from_str("new_default_meta"),
            InitArgs::CustomInit { .. } => String::from_str("new"),
        }
    }

    /// Encodes this request as its JSON payload.
    pub fn to_json(&self) -> (r: String)
        ensures
            r@ == self.spec_json(),
    {
        match self {
            InitArgs::DefaultInit { owner_id } => {
                let owner = json_quote(owner_id.as_str());
                frame_default_args(owner.as_str())
            },
            InitArgs::CustomInit {
                owner_id,
                metadata,
                token_metadata,
                minting_price,
                perpetual_royalties,
            } => {
                let owner = json_quote(owner_id.as_str());
                let royalties = encode_royalties(perpetual_royalties);
                frame_custom_args(
                    metadata.as_str(),
                    *minting_price,
                    owner.as_str(),
                    royalties.as_str(),
                    token_metadata.as_str(),
                )
            },
        }
    }
}

/// Writes the default payload around the owner's JSON literal.
pub fn frame_default_args(owner_literal: &str) -> (r: String)
    ensures
        r@ == default_args_json(owner_literal@),
{
    let mut r = String::from_str("{\"owner_id\":");
    r.append(owner_literal);
    r.append("}");
    r
}

/// Writes the full payload around its parts, each of them JSON text but the
/// price.
pub fn frame_custom_args(
    metadata: &str,
    minting_price: u128,
    owner_literal: &str,
    royalties: &str,
    token_metadata: &str,
) -> (r: String)
    ensures
        r@ == custom_args_json(
            metadata@,
            minting_price as nat,
            owner_literal@,
            royalties@,
            token_metadata@,
        ),
{
    let price = decimal_text(minting_price);
    let mut r = String::from_str("{\"metadata\":");
    r.append(metadata);
    r.append(",\"minting_price\":\"");
    r.append(price.as_str());
    r.append("\",\"owner_id\":");
    r.append(owner_literal);
    r.append(",\"perpetual_royalties\":");
    r.append(royalties);
    r.append(",\"token_metadata\":");
    r.append(token_metadata);
    r.append("}");
    r
}

/// Encodes the royalty table: `null`, or an object with one member per pair,
/// in the given order.
pub fn encode_royalties(royalties: &Option<Vec<(String, u32)>>) -> (r: String)
    ensures
        r@ == royalties_json(
            match royalties {
                None => None,
                Some(v) => Some(royalties_view(v@)),
            },
        ),
{
    match royalties {
        None => String::from_str("null"),
        Some(v) => {
            let ghost s = royalties_view(v@);
            let mut r = String::from_str("{");
            let mut i: usize = 0;
            while i < v.len()
                invariant
                    i <= v@.len(),
                    s == royalties_view(v@),
                    r@ == "{"@ + royalty_members(s.take(i as int)),
                decreases v@.len() - i,
            {
                if i > 0 {
                    r.append(",");
                }
                let name = json_quote(v[i].0.as_str());
                let share = decimal_text(v[i].1 as u128);
                r.append(name.as_str());
                r.append(":");
                r.append(share.as_str());
                proof {
                    let t = s.take(i as int + 1);
                    assert(t.drop_last() =~= s.take(i as int));
                    assert(t.last() == s[i as int]);
                    if i == 0 {
                        assert(s.take(0) =~= Seq::<(Seq<char>, u32)>::empty());
                    }
                    assert(r@ =~= "{"@ + royalty_members(t));
                }
                i = i + 1;
            }
            assert(s.take(v@.len() as int) =~= s);
            r.append("}");
            r
        },
    }
}

} // verus!
