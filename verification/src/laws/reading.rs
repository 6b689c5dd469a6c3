//! How the values that the host hands over are read.
use vstd::prelude::*;

use crate::context::{
    is_creation, is_executable_ref, operation_of, operations, place_of, vector_field,
    OperationView,
};
use crate::host::{
    addresses, amount_items, amount_vals, context_vals, field_keys, field_values,
    hashes, integers, maps, symbols, texts, token_items, token_vals, vectors, Amounts, Contexts,
    Fields, Tokens, Vals,
};

verus! {

/// Whether `i` is the first place of a name among the keys of a map.
pub open spec fn stands_at(fields: Fields, name: Seq<char>, i: int) -> bool {
    &&& 0 <= i < symbols(field_keys(fields)).len()
    &&& symbols(field_keys(fields))[i] == Some(name)
    &&& forall|j: int| 0 <= j < i ==> #[trigger] symbols(field_keys(fields))[j] != Some(name)
}

/// Whether every key of a map is a symbol.
pub open spec fn named_throughout(fields: Fields) -> bool {
    forall|i: int|
        0 <= i < symbols(field_keys(fields)).len()
            ==> #[trigger] symbols(field_keys(fields))[i] is Some
}

/// Whether a vector has a name and one value, and the value is this map.
pub open spec fn is_named_map(parts: Vals, name: Seq<char>, fields: Fields) -> bool {
    &&& symbols(parts).len() == 2
    &&& symbols(parts)[0] == Some(name)
    &&& maps(parts)[1] == Some(fields)
}

/// Whether a map is a call: its keys are symbols, and among them are `contract`, an address,
/// `fn_name`, a symbol, and `args`, a vector.
pub open spec fn is_call(
    fields: Fields,
    contract: Seq<char>,
    fn_name: Seq<char>,
    args: Vals,
) -> bool {
    &&& named_throughout(fields)
    &&& exists|i: int|
        #[trigger] stands_at(fields, "contract"@, i) && addresses(field_values(fields))[i] == Some(
            contract,
        )
    &&& exists|i: int|
        #[trigger] stands_at(fields, "fn_name"@, i) && symbols(field_values(fields))[i] == Some(
            fn_name,
        )
    &&& exists|i: int|
        #[trigger] stands_at(fields, "args"@, i) && vectors(field_values(fields))[i] == Some(args)
}

/// Whether a map says where the code of a contract is kept: `owner`, an address, and `tag`, a
/// text.
pub open spec fn locates_code(fields: Fields) -> bool {
    &&& named_throughout(fields)
    &&& exists|i: int|
        #[trigger] stands_at(fields, "owner"@, i) && addresses(field_values(fields))[i] is Some
    &&& exists|i: int| #[trigger] stands_at(fields, "tag"@, i) && texts(field_values(fields))[i]
}

/// Whether a vector names the code of a contract: `Wasm` and 32 bytes, or `ExternalRef` and
/// where it is kept.
pub open spec fn names_code(parts: Vals) -> bool {
    &&& symbols(parts).len() == 2
    &&& {
        ||| symbols(parts)[0] == Some("Wasm"@) && hashes(parts)[1]
        ||| symbols(parts)[0] == Some("ExternalRef"@) && maps(parts)[1] is Some && locates_code(
            maps(parts)[1]->0,
        )
    }
}

/// Whether a map is the creation of a contract: `salt`, 32 bytes, and `executable`, its code.
pub open spec fn creates(fields: Fields) -> bool {
    &&& named_throughout(fields)
    &&& exists|i: int| #[trigger] stands_at(fields, "salt"@, i) && hashes(field_values(fields))[i]
    &&& exists|i: int| #[trigger]
        stands_at(fields, "executable"@, i) && vectors(field_values(fields))[i] is Some
            && names_code(vectors(field_values(fields))[i]->0)
}

/// Whether a map holds arguments for a constructor.
pub open spec fn passes_arguments(fields: Fields) -> bool {
    exists|i: int| #[trigger]
        stands_at(fields, "constructor_args"@, i) && vectors(field_values(fields))[i] is Some
}

/// A place found is the first, and a name that is not found stands nowhere.
proof fn lemma_place_of(keys: Seq<Option<Seq<char>>>, name: Seq<char>)
    ensures
        place_of(keys, name) is Some ==> {
            let i = place_of(keys, name)->0;
            &&& 0 <= i < keys.len()
            &&& keys[i] == Some(name)
            &&& forall|j: int| 0 <= j < i ==> #[trigger] keys[j] != Some(name)
        },
        place_of(keys, name) is None ==> forall|j: int|
            0 <= j < keys.len() ==> #[trigger] keys[j] != Some(name),
    decreases keys.len(),
{
    if keys.len() > 0 {
        let before = keys.drop_last();
        lemma_place_of(before, name);
        assert forall|j: int| 0 <= j < before.len() implies before[j] == keys[j] by {}
        match place_of(before, name) {
            Some(i) => {
                assert forall|j: int| 0 <= j < i implies #[trigger] keys[j] != Some(name) by {
                    assert(before[j] != Some(name));
                }
            },
            None => {
                assert forall|j: int| 0 <= j < before.len() implies #[trigger] keys[j] != Some(
                    name,
                ) by {
                    assert(before[j] != Some(name));
                }
            },
        }
    }
}

/// A field is found where it stands.
proof fn lemma_stands_at(fields: Fields, name: Seq<char>)
    ensures
        forall|i: int| #[trigger]
            stands_at(fields, name, i) ==> place_of(symbols(field_keys(fields)), name) == Some(i),
        place_of(symbols(field_keys(fields)), name) is Some ==> stands_at(
            fields,
            name,
            place_of(symbols(field_keys(fields)), name)->0,
        ),
{
    let keys = symbols(field_keys(fields));
    lemma_place_of(keys, name);
    assert forall|i: int| #[trigger] stands_at(fields, name, i) implies place_of(keys, name)
        == Some(i) by {
        assert(keys[i] == Some(name));
        let place = place_of(keys, name)->0;
        if place < i {
            assert(keys[place] != Some(name));
        }
        if i < place {
            assert(keys[i] != Some(name));
        }
    }
}

/// A context of the case `Contract` whose map is a call is read as that call, with all its
/// arguments, however many there are.
pub proof fn law_calls_are_read(
    parts: Vals,
    fields: Fields,
    contract: Seq<char>,
    fn_name: Seq<char>,
    args: Vals,
)
    requires
        is_named_map(parts, "Contract"@, fields),
        is_call(fields, contract, fn_name, args),
    ensures
        operation_of(Some(parts)) == (OperationView::Call {
            contract,
            fn_name,
            args: integers(args),
        }),
{
    lemma_stands_at(fields, "contract"@);
    lemma_stands_at(fields, "fn_name"@);
    lemma_stands_at(fields, "args"@);
}

/// Nothing else is read as a call.
pub proof fn law_only_calls_are_calls(item: Option<Vals>)
    requires
        operation_of(item) is Call,
    ensures
        item is Some,
        maps(item->0)[1] is Some,
        is_named_map(item->0, "Contract"@, maps(item->0)[1]->0),
        exists|args: Vals| #[trigger]
            is_call(
                maps(item->0)[1]->0,
                operation_of(item)->contract,
                operation_of(item)->fn_name,
                args,
            ) && operation_of(item)->args == integers(args),
{
    let fields = maps(item->0)[1]->0;
    lemma_stands_at(fields, "contract"@);
    lemma_stands_at(fields, "fn_name"@);
    lemma_stands_at(fields, "args"@);
    let place = place_of(symbols(field_keys(fields)), "args"@)->0;
    let args = vectors(field_values(fields))[place]->0;
    assert(is_call(fields, operation_of(item)->contract, operation_of(item)->fn_name, args));
}

/// A map names the code of a contract exactly as the reader takes it.
proof fn lemma_locates_code(fields: Fields)
    ensures
        is_executable_ref(fields) == locates_code(fields),
{
    lemma_stands_at(fields, "owner"@);
    lemma_stands_at(fields, "tag"@);
}

proof fn lemma_creates(fields: Fields)
    ensures
        is_creation(fields) == creates(fields),
        (vector_field(fields, "constructor_args"@) is Some) == passes_arguments(fields),
{
    lemma_stands_at(fields, "salt"@);
    lemma_stands_at(fields, "executable"@);
    lemma_stands_at(fields, "constructor_args"@);
    if vector_field(fields, "executable"@) is Some {
        let parts = vector_field(fields, "executable"@)->0;
        if maps(parts)[1] is Some {
            lemma_locates_code(maps(parts)[1]->0);
        }
    }
}

/// A context is read as a creation if and only if it is one: of the case
/// `CreateContractHostFn`, or, with arguments for a constructor,
/// `CreateContractWithCtorHostFn`.
pub proof fn law_creations_are_read(item: Option<Vals>)
    ensures
        operation_of(item) is CreateContract <==> {
            &&& item is Some
            &&& maps(item->0)[1] is Some
            &&& is_named_map(item->0, "CreateContractHostFn"@, maps(item->0)[1]->0)
            &&& creates(maps(item->0)[1]->0)
        },
        operation_of(item) is CreateContractWithConstructor <==> {
            &&& item is Some
            &&& maps(item->0)[1] is Some
            &&& is_named_map(item->0, "CreateContractWithCtorHostFn"@, maps(item->0)[1]->0)
            &&& creates(maps(item->0)[1]->0)
            &&& passes_arguments(maps(item->0)[1]->0)
        },
{
    reveal_strlit("Contract");
    reveal_strlit("CreateContractHostFn");
    reveal_strlit("CreateContractWithCtorHostFn");
    assert("Contract"@.len() == 8);
    assert("CreateContractHostFn"@.len() == 20);
    assert("CreateContractWithCtorHostFn"@.len() == 28);
    if item is Some && maps(item->0)[1] is Some {
        lemma_creates(maps(item->0)[1]->0);
    }
}

/// Contexts are read one for one and in order.
pub proof fn law_contexts_are_read_in_order(contexts: Contexts, i: int)
    ensures
        operations(contexts).len() == vectors(context_vals(contexts)).len(),
        0 <= i < operations(contexts).len() ==> operations(contexts)[i] == operation_of(
            vectors(context_vals(contexts))[i],
        ),
{
}

/// A list of tokens is read as addresses, and a list of amounts as integers, item by item.
pub proof fn law_lists_are_read_in_order(tokens: Tokens, amounts: Amounts)
    ensures
        token_items(tokens) == addresses(token_vals(tokens)),
        amount_items(amounts) == integers(amount_vals(amounts)),
{
}

} // verus!
