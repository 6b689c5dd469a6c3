//! Authorisation contexts: what a wallet is asked to authorise.
//!
//! The host hands the policies a vector of contexts. They are read one by one into
//! [`Operation`]s, plain values that the rules are stated over.
//!
//! A context is one case of a union, kept as a vector of the name of the case and a structure,
//! and a structure is a map from the names of its fields to their values. Nothing holds a host
//! vector to that: an item of any other form is read as [`Operation::Invalid`].
use vstd::prelude::*;

use crate::host::{
    address_at, addresses, context_vals, field_keys, field_values, has_len, hashes, integer_at,
    integers, is_hash_at, is_text_at, keys_of, map_at, maps, symbol_at, symbols, texts, val_count,
    values_of, vector_at, vectors, Contexts, Fields, Vals,
};
use crate::store::all_some;
use crate::strkey::Strkey;

verus! {

/// What the rules see of one context.
pub enum OperationView {
    /// A contract call. An argument that is no `i128` shows as `None`.
    Call { contract: Seq<char>, fn_name: Seq<char>, args: Seq<Option<i128>> },
    CreateContract,
    CreateContractWithConstructor,
    /// An item that is no authorisation context.
    Invalid,
}

/// One context as a plain value.
#[derive(Debug)]
pub enum Operation {
    Call { contract: Strkey, fn_name: String, args: Vec<Option<i128>> },
    CreateContract,
    CreateContractWithConstructor,
    Invalid,
}

impl View for Operation {
    type V = OperationView;

    open spec fn view(&self) -> OperationView {
        match *self {
            Operation::Call { contract, fn_name, args } => OperationView::Call {
                contract: contract@,
                fn_name: fn_name@,
                args: args@,
            },
            Operation::CreateContract => OperationView::CreateContract,
            Operation::CreateContractWithConstructor => {
                OperationView::CreateContractWithConstructor
            },
            Operation::Invalid => OperationView::Invalid,
        }
    }
}

/// The views of a list of operations, in order.
pub open spec fn operation_views(operations: Seq<Operation>) -> Seq<OperationView> {
    operations.map_values(|operation: Operation| operation@)
}

/// The place of a name among the keys of a structure: the first, if there is one.
pub open spec fn place_of(keys: Seq<Option<Seq<char>>>, name: Seq<char>) -> Option<int>
    decreases keys.len(),
{
    if keys.len() == 0 {
        None
    } else {
        match place_of(keys.drop_last(), name) {
            Some(place) => Some(place),
            None => if keys.last() == Some(name) {
                Some(keys.len() - 1)
            } else {
                None
            },
        }
    }
}

/// Whether a map can be a structure: every key is a symbol.
pub open spec fn is_structure(fields: Fields) -> bool {
    all_some(symbols(field_keys(fields)))
}

/// The place of a field of a structure.
pub open spec fn field_place(fields: Fields, name: Seq<char>) -> Option<int> {
    place_of(symbols(field_keys(fields)), name)
}

/// The strkey in a field, if it holds an address.
pub open spec fn address_field(fields: Fields, name: Seq<char>) -> Option<Seq<char>> {
    match field_place(fields, name) {
        Some(place) => addresses(field_values(fields))[place],
        None => None,
    }
}

/// The characters in a field, if it holds a symbol.
pub open spec fn symbol_field(fields: Fields, name: Seq<char>) -> Option<Seq<char>> {
    match field_place(fields, name) {
        Some(place) => symbols(field_values(fields))[place],
        None => None,
    }
}

/// The vector in a field, if it holds one.
pub open spec fn vector_field(fields: Fields, name: Seq<char>) -> Option<Vals> {
    match field_place(fields, name) {
        Some(place) => vectors(field_values(fields))[place],
        None => None,
    }
}

/// Whether a field holds 32 bytes.
pub open spec fn is_hash_field(fields: Fields, name: Seq<char>) -> bool {
    match field_place(fields, name) {
        Some(place) => hashes(field_values(fields))[place],
        None => false,
    }
}

/// Whether a field holds a text.
pub open spec fn is_text_field(fields: Fields, name: Seq<char>) -> bool {
    match field_place(fields, name) {
        Some(place) => texts(field_values(fields))[place],
        None => false,
    }
}

/// Whether a vector is one case of a union: its name, and one value.
pub open spec fn is_case(parts: Vals, name: Seq<char>) -> bool {
    symbols(parts).len() == 2 && symbols(parts)[0] == Some(name)
}

/// Whether a map says where the code of a contract is kept.
pub open spec fn is_executable_ref(fields: Fields) -> bool {
    &&& is_structure(fields)
    &&& address_field(fields, "owner"@) is Some
    &&& is_text_field(fields, "tag"@)
}

/// Whether a vector names the code of a contract: by its hash, or by where it is kept.
pub open spec fn is_executable(parts: Vals) -> bool {
    ||| is_case(parts, "Wasm"@) && hashes(parts)[1]
    ||| is_case(parts, "ExternalRef"@) && maps(parts)[1] is Some && is_executable_ref(
        maps(parts)[1]->0,
    )
}

/// Whether a map has what every creation of a contract has.
pub open spec fn is_creation(fields: Fields) -> bool {
    &&& is_structure(fields)
    &&& is_hash_field(fields, "salt"@)
    &&& vector_field(fields, "executable"@) is Some
    &&& is_executable(vector_field(fields, "executable"@)->0)
}

/// The call that a structure stands for.
pub open spec fn call_of(fields: Fields) -> OperationView {
    match (
        address_field(fields, "contract"@),
        symbol_field(fields, "fn_name"@),
        vector_field(fields, "args"@),
    ) {
        (Some(contract), Some(fn_name), Some(args)) => OperationView::Call {
            contract,
            fn_name,
            args: integers(args),
        },
        _ => OperationView::Invalid,
    }
}

/// What the case `name` of a context asks for.
pub open spec fn case_of(name: Seq<char>, fields: Fields) -> OperationView {
    if !is_structure(fields) {
        OperationView::Invalid
    } else if name == "Contract"@ {
        call_of(fields)
    } else if name == "CreateContractHostFn"@ && is_creation(fields) {
        OperationView::CreateContract
    } else if name == "CreateContractWithCtorHostFn"@ && is_creation(fields) && vector_field(
        fields,
        "constructor_args"@,
    ) is Some {
        OperationView::CreateContractWithConstructor
    } else {
        OperationView::Invalid
    }
}

/// What an item of the contexts asks for: a context is a vector of the name of its case and a
/// structure.
pub open spec fn operation_of(item: Option<Vals>) -> OperationView {
    match item {
        None => OperationView::Invalid,
        Some(parts) => if symbols(parts).len() != 2 {
            OperationView::Invalid
        } else {
            match (symbols(parts)[0], maps(parts)[1]) {
                (Some(name), Some(fields)) => case_of(name, fields),
                _ => OperationView::Invalid,
            }
        },
    }
}

/// What each context asks for, in order.
pub open spec fn operations(contexts: Contexts) -> Seq<OperationView> {
    vectors(context_vals(contexts)).map_values(|item: Option<Vals>| operation_of(item))
}

/// Reads every item of a list as an integer.
pub fn read_integers(vals: &Vals) -> (read: Vec<Option<i128>>)
    ensures
        read@ == integers(*vals),
{
    let count: u32 = val_count(vals);
    let mut read: Vec<Option<i128>> = Vec::new();
    let mut i: u32 = 0;
    while i < count
        invariant
            count == integers(*vals).len(),
            i <= count,
            read@ == integers(*vals).take(i as int),
        decreases count - i,
    {
        read.push(integer_at(vals, i));
        i = i + 1;
    }
    assert(integers(*vals).take(count as int) =~= integers(*vals));
    read
}

/// A structure, its keys read.
struct Record {
    fields: Fields,
    keys: Vec<String>,
    values: Vals,
}

impl Record {
    spec fn wf(self) -> bool {
        let keys = symbols(field_keys(self.fields));
        &&& keys.len() == self.keys@.len()
        &&& forall|i: int|
            0 <= i < self.keys@.len() ==> keys[i] == Some(#[trigger] self.keys@[i]@)
        &&& self.values == field_values(self.fields)
        &&& has_len(self.values, self.keys@.len())
    }

    /// Reads a structure; `None` where a key is no symbol.
    fn read(fields: Fields) -> (record: Option<Record>)
        ensures
            record is Some <==> is_structure(fields),
            record is Some ==> record->0.wf() && record->0.fields == fields,
    {
        let ghost names = symbols(field_keys(fields));
        let vals = keys_of(&fields);
        let count: u32 = val_count(&vals);
        let mut keys: Vec<String> = Vec::new();
        let mut i: u32 = 0;
        while i < count
            invariant
                vals == field_keys(fields),
                names == symbols(vals),
                count == names.len(),
                i <= count,
                keys@.len() == i,
                forall|j: int| 0 <= j < i ==> names[j] == Some(#[trigger] keys@[j]@),
            decreases count - i,
        {
            match symbol_at(&vals, i) {
                Some(key) => {
                    keys.push(key);
                },
                None => {
                    return None;
                },
            }
            i = i + 1;
        }
        assert forall|j: int| 0 <= j < names.len() implies #[trigger] names[j] is Some by {
            assert(names[j] == Some(keys@[j]@));
        }
        let values = values_of(&fields);
        let value_count: u32 = val_count(&values);
        assert(value_count == count);
        Some(Record { fields, keys, values })
    }

    /// The place of a field.
    fn place(&self, name: &str) -> (place: Option<u32>)
        requires
            self.wf(),
        ensures
            place is Some <==> field_place(self.fields, name@) is Some,
            place is Some ==> {
                &&& field_place(self.fields, name@) == Some(place->0 as int)
                &&& has_len(self.values, self.keys@.len())
                &&& place->0 < self.keys@.len()
            },
    {
        let ghost names = symbols(field_keys(self.fields));
        let name = name.to_owned();
        let count: u32 = val_count(&self.values);
        let mut place: Option<u32> = None;
        let mut i: u32 = 0;
        while i < count
            invariant
                self.wf(),
                names == symbols(field_keys(self.fields)),
                count == self.keys@.len(),
                i <= count,
                place is Some <==> place_of(names.take(i as int), name@) is Some,
                place is Some ==> place->0 < i && place_of(names.take(i as int), name@) == Some(
                    place->0 as int,
                ),
            decreases count - i,
        {
            assert(names.take(i + 1).drop_last() =~= names.take(i as int));
            assert(names[i as int] == Some(self.keys@[i as int]@));
            if place.is_none() && self.keys[i as usize] == name {
                place = Some(i);
            }
            i = i + 1;
        }
        assert(names.take(count as int) =~= names);
        place
    }

    /// The strkey in a field, if it holds an address.
    fn address(&self, name: &str) -> (strkey: Option<String>)
        requires
            self.wf(),
        ensures
            strkey is Some <==> address_field(self.fields, name@) is Some,
            strkey is Some ==> address_field(self.fields, name@) == Some(strkey->0@),
    {
        match self.place(name) {
            Some(place) => address_at(&self.values, place),
            None => None,
        }
    }

    /// The characters in a field, if it holds a symbol.
    fn symbol(&self, name: &str) -> (symbol: Option<String>)
        requires
            self.wf(),
        ensures
            symbol is Some <==> symbol_field(self.fields, name@) is Some,
            symbol is Some ==> symbol_field(self.fields, name@) == Some(symbol->0@),
    {
        match self.place(name) {
            Some(place) => symbol_at(&self.values, place),
            None => None,
        }
    }

    /// The vector in a field, if it holds one.
    fn vector(&self, name: &str) -> (vector: Option<Vals>)
        requires
            self.wf(),
        ensures
            vector == vector_field(self.fields, name@),
    {
        match self.place(name) {
            Some(place) => vector_at(&self.values, place),
            None => None,
        }
    }

    /// Whether a field holds 32 bytes.
    fn is_hash(&self, name: &str) -> (is_hash: bool)
        requires
            self.wf(),
        ensures
            is_hash == is_hash_field(self.fields, name@),
    {
        match self.place(name) {
            Some(place) => is_hash_at(&self.values, place),
            None => false,
        }
    }

    /// Whether a field holds a text.
    fn is_text(&self, name: &str) -> (is_text: bool)
        requires
            self.wf(),
        ensures
            is_text == is_text_field(self.fields, name@),
    {
        match self.place(name) {
            Some(place) => is_text_at(&self.values, place),
            None => false,
        }
    }
}

/// The name of the case that a vector is, if it is one with a value.
fn case_name(parts: &Vals) -> (name: Option<String>)
    ensures
        name is Some <==> symbols(*parts).len() == 2 && symbols(*parts)[0] is Some,
        name is Some ==> is_case(*parts, name->0@) && has_len(*parts, 2),
{
    if val_count(parts) == 2 {
        symbol_at(parts, 0)
    } else {
        None
    }
}

/// Whether a map says where the code of a contract is kept.
fn check_executable_ref(fields: Fields) -> (valid: bool)
    ensures
        valid == is_executable_ref(fields),
{
    match Record::read(fields) {
        Some(record) => record.address("owner").is_some() && record.is_text("tag"),
        None => false,
    }
}

/// Whether a vector names the code of a contract.
fn check_executable(parts: &Vals) -> (valid: bool)
    ensures
        valid == is_executable(*parts),
{
    let name = match case_name(parts) {
        Some(name) => name,
        None => {
            return false;
        },
    };
    proof {
        reveal_strlit("Wasm");
        reveal_strlit("ExternalRef");
        assert("Wasm"@.len() != "ExternalRef"@.len());
    }
    if name == "Wasm".to_owned() {
        is_hash_at(parts, 1)
    } else if name == "ExternalRef".to_owned() {
        match map_at(parts, 1) {
            Some(fields) => check_executable_ref(fields),
            None => false,
        }
    } else {
        false
    }
}

/// Whether a structure has what every creation of a contract has.
fn check_creation(record: &Record) -> (valid: bool)
    requires
        record.wf(),
        is_structure(record.fields),
    ensures
        valid == is_creation(record.fields),
{
    if !record.is_hash("salt") {
        return false;
    }
    match record.vector("executable") {
        Some(parts) => check_executable(&parts),
        None => false,
    }
}

/// Reads the call that a structure stands for.
fn read_call(record: &Record) -> (operation: Operation)
    requires
        record.wf(),
        is_structure(record.fields),
    ensures
        operation@ == call_of(record.fields),
{
    match (record.address("contract"), record.symbol("fn_name"), record.vector("args")) {
        (Some(contract), Some(fn_name), Some(args)) => Operation::Call {
            contract: Strkey::new(contract),
            fn_name,
            args: read_integers(&args),
        },
        _ => Operation::Invalid,
    }
}

/// Reads one case of a context.
fn read_case(name: String, record: &Record) -> (operation: Operation)
    requires
        record.wf(),
        is_structure(record.fields),
    ensures
        operation@ == case_of(name@, record.fields),
{
    if name == "Contract".to_owned() {
        read_call(record)
    } else if name == "CreateContractHostFn".to_owned() && check_creation(record) {
        Operation::CreateContract
    } else if name == "CreateContractWithCtorHostFn".to_owned() && check_creation(record)
        && record.vector("constructor_args").is_some() {
        Operation::CreateContractWithConstructor
    } else {
        Operation::Invalid
    }
}

/// Reads the context at `i`. Whatever is no context is `Invalid`.
pub(crate) fn read_operation(items: &Vals, i: u32) -> (operation: Operation)
    requires
        i < vectors(*items).len(),
    ensures
        operation@ == operation_of(vectors(*items)[i as int]),
{
    let parts = match vector_at(items, i) {
        Some(parts) => parts,
        None => {
            return Operation::Invalid;
        },
    };
    let name = match case_name(&parts) {
        Some(name) => name,
        None => {
            return Operation::Invalid;
        },
    };
    match map_at(&parts, 1) {
        Some(fields) => match Record::read(fields) {
            Some(record) => read_case(name, &record),
            None => Operation::Invalid,
        },
        None => Operation::Invalid,
    }
}

} // verus!
