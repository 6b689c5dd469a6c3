//! The boundary with the contract host.
//!
//! Every value that a Soroban contract is handed lives in the host and is reached through
//! `soroban_sdk`. This module declares the host types that the policies read, names what
//! such a value holds as a mathematical sequence or map, and wraps the calls that read or
//! fill one. Nothing else in the crate is believed without proof.
//!
//! A host collection is untyped underneath: an item of a `soroban_sdk::Vec<i128>` need not
//! be an `i128`. The readers therefore take every collection as a list of host values, report
//! an item that is not of the type asked for, and leave the decision to the caller.
use vstd::prelude::*;

verus! {

#[verifier::external_type_specification]
#[verifier::external_body]
pub struct ExEnv(soroban_sdk::Env);

#[verifier::external_type_specification]
#[verifier::external_body]
pub struct ExVal(soroban_sdk::Val);

#[verifier::external_type_specification]
#[verifier::external_body]
pub struct ExAddress(soroban_sdk::Address);

#[verifier::external_type_specification]
#[verifier::external_body]
pub struct ExString(soroban_sdk::String);

#[verifier::external_type_specification]
#[verifier::external_body]
pub struct ExContext(soroban_sdk::auth::Context);

#[verifier::external_type_specification]
#[verifier::external_body]
#[verifier::reject_recursive_types(T)]
pub struct ExVec<T>(soroban_sdk::Vec<T>);

#[verifier::external_type_specification]
#[verifier::external_body]
#[verifier::reject_recursive_types(K)]
#[verifier::reject_recursive_types(V)]
pub struct ExMap<K, V>(soroban_sdk::Map<K, V>);

/// A list of host values of any type.
pub type Vals = soroban_sdk::Vec<soroban_sdk::Val>;

/// A structure as the host holds it: its fields by their names.
pub type Fields = soroban_sdk::Map<soroban_sdk::Val, soroban_sdk::Val>;

/// The contexts that a wallet is asked to authorise.
pub type Contexts = soroban_sdk::Vec<soroban_sdk::auth::Context>;

/// A list of token contracts.
pub type Tokens = soroban_sdk::Vec<soroban_sdk::Address>;

/// A list of amounts, prices or quotes.
pub type Amounts = soroban_sdk::Vec<i128>;

/// The price cache: USDC stroops per 1.0 token, by the strkey of the token contract.
pub type PriceMap = soroban_sdk::Map<soroban_sdk::String, i128>;

/// The items of a vector of contexts.
pub uninterp spec fn context_vals(contexts: Contexts) -> Vals;

/// The items of a list of tokens.
pub uninterp spec fn token_vals(tokens: Tokens) -> Vals;

/// The items of a list of amounts.
pub uninterp spec fn amount_vals(amounts: Amounts) -> Vals;

/// The integer in each item that is an `i128`.
pub uninterp spec fn integers(vals: Vals) -> Seq<Option<i128>>;

/// The characters of each item that is a symbol.
pub uninterp spec fn symbols(vals: Vals) -> Seq<Option<Seq<char>>>;

/// The strkey of each item that is an address.
pub uninterp spec fn addresses(vals: Vals) -> Seq<Option<Seq<char>>>;

/// Each item that is a vector.
pub uninterp spec fn vectors(vals: Vals) -> Seq<Option<Vals>>;

/// Each item that is a map.
pub uninterp spec fn maps(vals: Vals) -> Seq<Option<Fields>>;

/// Whether each item is a string of 32 bytes.
pub uninterp spec fn hashes(vals: Vals) -> Seq<bool>;

/// Whether each item is a text.
pub uninterp spec fn texts(vals: Vals) -> Seq<bool>;

/// The keys of a map, in order.
pub uninterp spec fn field_keys(fields: Fields) -> Vals;

/// The values of a map, in the order of their keys.
pub uninterp spec fn field_values(fields: Fields) -> Vals;

/// The entries of the price cache whose value is an `i128`.
pub uninterp spec fn price_entries(prices: PriceMap) -> Map<Seq<char>, i128>;

/// Whether a list has `n` items, whatever they are read as.
pub open spec fn has_len(vals: Vals, n: nat) -> bool {
    &&& integers(vals).len() == n
    &&& symbols(vals).len() == n
    &&& addresses(vals).len() == n
    &&& vectors(vals).len() == n
    &&& maps(vals).len() == n
    &&& hashes(vals).len() == n
    &&& texts(vals).len() == n
}

/// The strkey of each token, `None` where the item is no address.
pub open spec fn token_items(tokens: Tokens) -> Seq<Option<Seq<char>>> {
    addresses(token_vals(tokens))
}

/// The items of a list of amounts, `None` where the item is no `i128`.
pub open spec fn amount_items(amounts: Amounts) -> Seq<Option<i128>> {
    integers(amount_vals(amounts))
}

/// `soroban_sdk::Vec::to_vals`: the contexts as host values.
#[verifier::external_body]
pub(crate) fn vals_of_contexts(contexts: &Contexts) -> (vals: Vals)
    ensures
        vals == context_vals(*contexts),
{
    contexts.to_vals()
}

/// `soroban_sdk::Vec::to_vals`: the tokens as host values.
#[verifier::external_body]
pub(crate) fn vals_of_tokens(tokens: &Tokens) -> (vals: Vals)
    ensures
        vals == token_vals(*tokens),
{
    tokens.to_vals()
}

/// `soroban_sdk::Vec::to_vals`: the amounts as host values.
#[verifier::external_body]
pub(crate) fn vals_of_amounts(amounts: &Amounts) -> (vals: Vals)
    ensures
        vals == amount_vals(*amounts),
{
    amounts.to_vals()
}

/// `soroban_sdk::Vec::len`: the number of items.
#[verifier::external_body]
pub(crate) fn val_count(vals: &Vals) -> (count: u32)
    ensures
        has_len(*vals, count as nat),
{
    vals.len()
}

/// `soroban_sdk::Vec::get_unchecked`, then `i128::try_from_val`: the item at `i`, if it is an
/// `i128`.
#[verifier::external_body]
pub(crate) fn integer_at(vals: &Vals, i: u32) -> (integer: Option<i128>)
    requires
        i < integers(*vals).len(),
    ensures
        integer == integers(*vals)[i as int],
{
    let val = vals.get_unchecked(i);
    soroban_sdk::TryFromVal::try_from_val(vals.env(), &val).ok()
}

/// `soroban_sdk::Vec::get_unchecked`, then `soroban_sdk::Symbol::try_from_val` and
/// `soroban_sdk::SymbolStr::try_from_val`: the characters of the item at `i`, if it is a symbol.
#[verifier::external_body]
pub(crate) fn symbol_at(vals: &Vals, i: u32) -> (symbol: Option<String>)
    requires
        i < symbols(*vals).len(),
    ensures
        symbol is Some <==> symbols(*vals)[i as int] is Some,
        symbol is Some ==> symbols(*vals)[i as int] == Some(symbol->0@),
{
    let val = vals.get_unchecked(i);
    let symbol: soroban_sdk::Symbol =
        soroban_sdk::TryFromVal::try_from_val(vals.env(), &val).ok()?;
    let chars: soroban_sdk::SymbolStr =
        soroban_sdk::TryFromVal::try_from_val(vals.env(), &symbol.to_symbol_val()).ok()?;
    let text: &str = chars.as_ref();
    Some(text.to_owned())
}

/// `soroban_sdk::Vec::get_unchecked`, then `soroban_sdk::Address::try_from_val` and
/// `soroban_sdk::Address::to_string`: the strkey of the item at `i`, if it is an address. The
/// bytes of a strkey, which are ASCII, come by `soroban_sdk::String::copy_into_slice`.
#[verifier::external_body]
pub(crate) fn address_at(vals: &Vals, i: u32) -> (strkey: Option<String>)
    requires
        i < addresses(*vals).len(),
    ensures
        strkey is Some <==> addresses(*vals)[i as int] is Some,
        strkey is Some ==> addresses(*vals)[i as int] == Some(strkey->0@),
{
    let val = vals.get_unchecked(i);
    let address: soroban_sdk::Address =
        soroban_sdk::TryFromVal::try_from_val(vals.env(), &val).ok()?;
    let strkey = address.to_string();
    let mut bytes = vec![0u8; strkey.len() as usize];
    strkey.copy_into_slice(&mut bytes);
    String::from_utf8(bytes).ok()
}

/// `soroban_sdk::Vec::get_unchecked`, then `soroban_sdk::Vec::try_from_val`: the item at `i`, if
/// it is a vector.
#[verifier::external_body]
pub(crate) fn vector_at(vals: &Vals, i: u32) -> (vector: Option<Vals>)
    requires
        i < vectors(*vals).len(),
    ensures
        vector == vectors(*vals)[i as int],
{
    let val = vals.get_unchecked(i);
    soroban_sdk::TryFromVal::try_from_val(vals.env(), &val).ok()
}

/// `soroban_sdk::Vec::get_unchecked`, then `soroban_sdk::Map::try_from_val`: the item at `i`, if
/// it is a map.
#[verifier::external_body]
pub(crate) fn map_at(vals: &Vals, i: u32) -> (fields: Option<Fields>)
    requires
        i < maps(*vals).len(),
    ensures
        fields == maps(*vals)[i as int],
{
    let val = vals.get_unchecked(i);
    soroban_sdk::TryFromVal::try_from_val(vals.env(), &val).ok()
}

/// `soroban_sdk::Vec::get_unchecked`, then `soroban_sdk::BytesN::<32>::try_from_val`: whether
/// the item at `i` is a string of 32 bytes.
#[verifier::external_body]
pub(crate) fn is_hash_at(vals: &Vals, i: u32) -> (is_hash: bool)
    requires
        i < hashes(*vals).len(),
    ensures
        is_hash == hashes(*vals)[i as int],
{
    let val = vals.get_unchecked(i);
    <soroban_sdk::BytesN<32> as soroban_sdk::TryFromVal<_, _>>::try_from_val(vals.env(), &val)
        .is_ok()
}

/// `soroban_sdk::Vec::get_unchecked`, then `soroban_sdk::String::try_from_val`: whether the item
/// at `i` is a text.
#[verifier::external_body]
pub(crate) fn is_text_at(vals: &Vals, i: u32) -> (is_text: bool)
    requires
        i < texts(*vals).len(),
    ensures
        is_text == texts(*vals)[i as int],
{
    let val = vals.get_unchecked(i);
    <soroban_sdk::String as soroban_sdk::TryFromVal<_, _>>::try_from_val(vals.env(), &val).is_ok()
}

/// `soroban_sdk::Map::keys`: the keys of a map.
#[verifier::external_body]
pub(crate) fn keys_of(fields: &Fields) -> (keys: Vals)
    ensures
        keys == field_keys(*fields),
{
    fields.keys()
}

/// `soroban_sdk::Map::values`: the values of a map, one for each key.
#[verifier::external_body]
pub(crate) fn values_of(fields: &Fields) -> (values: Vals)
    ensures
        values == field_values(*fields),
        symbols(values).len() == symbols(field_keys(*fields)).len(),
{
    fields.values()
}

/// `soroban_sdk::Map::new`: an empty price cache.
#[verifier::external_body]
pub(crate) fn new_prices(env: &soroban_sdk::Env) -> (prices: PriceMap)
    ensures
        price_entries(prices) == (Map::<Seq<char>, i128>::empty()),
{
    soroban_sdk::Map::new(env)
}

/// `soroban_sdk::Map::try_get`: the price cached for a token, if any. The key is made in the
/// host of the map.
#[verifier::external_body]
pub(crate) fn cached_price(prices: &PriceMap, token: &str) -> (price: Option<i128>)
    ensures
        price is Some <==> price_entries(*prices).contains_key(token@),
        price is Some ==> price_entries(*prices)[token@] == price->0,
{
    prices.try_get(soroban_sdk::String::from_str(prices.env(), token)).ok().flatten()
}

/// `soroban_sdk::Map::set`: caches a price, in place of the one that the token had.
#[verifier::external_body]
pub(crate) fn cache_price(prices: &mut PriceMap, token: &str, price: i128)
    ensures
        price_entries(*final(prices)) == price_entries(*old(prices)).insert(token@, price),
{
    let key = soroban_sdk::String::from_str(prices.env(), token);
    prices.set(key, price);
}

} // verus!
