//! The entry-point registry and the version-negotiation probe: the host
//! calls [`api_guard`] first and refuses to proceed unless it receives
//! the compatibility token it expects.

use vstd::prelude::*;
use vstd::utf8::encode_utf8;

verus! {

/// The names of every entry point this library exposes across the
/// boundary, in registration order.
pub open spec fn inventory_names() -> Seq<Seq<char>> {
    seq![
        "api_guard"@,
        "storage_new"@,
        "storage_destroy"@,
        "storage_get"@,
        "storage_ascii_new"@,
        "storage_ascii_destroy"@,
        "storage_ascii_ffi_set"@,
        "storage_ascii_ffi_get"@,
        "core_initialize_native_with_debug_call"@,
        "core_initialize_with_storage_with_set"@,
        "core_initialize_with_storage_with_get"@,
        "core_initialize_with_storage_without_set_get"@,
        "core_initialize_with_storage_ascii_with_set"@,
        "core_initialize_with_storage_ascii_with_get"@,
        "core_initialize_with_storage_ascii_without_set_get"@,
        "core_destroy"@,
    ]
}

/// One step of the registry checksum: fold a byte into the accumulator,
/// reduced so the accumulator stays below the modulus.
pub open spec fn token_step(h: int, b: int) -> int {
    (h * 31 + b) % 1_000_000_007
}

/// The checksum accumulator after folding in a whole byte sequence.
pub open spec fn token_of_bytes(h: int, bytes: Seq<u8>) -> int
    decreases bytes.len(),
{
    if bytes.len() == 0 {
        h
    } else {
        token_step(token_of_bytes(h, bytes.drop_last()), bytes.last() as int)
    }
}

/// The checksum accumulator after folding in the UTF-8 bytes of each
/// name in order.
pub open spec fn token_of_names(h: int, names: Seq<Seq<char>>) -> int
    decreases names.len(),
{
    if names.len() == 0 {
        h
    } else {
        token_of_bytes(token_of_names(h, names.drop_last()), encode_utf8(names.last()))
    }
}

/// The compatibility token of this library: a checksum over the full
/// registry, offset by one so it is never the null token.
pub open spec fn inventory_token() -> int {
    1 + token_of_names(1, inventory_names())
}

/// The opaque compatibility token the host checks before using any other
/// entry point.
#[derive(Clone, Copy, Debug, PartialEq, Eq, Structural)]
pub struct APIVersion {
    /// The registry checksum; never zero.
    pub token: u64,
}

/// The declarative registry of this library's entry points, from which
/// the compatibility token is computed and which binding generation
/// consumes. It is rebuilt on every call and always comes out the same.
pub fn my_inventory() -> (r: Vec<&'static str>)
    ensures
        r@.map_values(|s: &'static str| s@) == inventory_names(),
{
    let mut v: Vec<&'static str> = Vec::new();
    v.push("api_guard");
    v.push("storage_new");
    v.push("storage_destroy");
    v.push("storage_get");
    v.push("storage_ascii_new");
    v.push("storage_ascii_destroy");
    v.push("storage_ascii_ffi_set");
    v.push("storage_ascii_ffi_get");
    v.push("core_initialize_native_with_debug_call");
    v.push("core_initialize_with_storage_with_set");
    v.push("core_initialize_with_storage_with_get");
    v.push("core_initialize_with_storage_without_set_get");
    v.push("core_initialize_with_storage_ascii_with_set");
    v.push("core_initialize_with_storage_ascii_with_get");
    v.push("core_initialize_with_storage_ascii_without_set_get");
    v.push("core_destroy");
    assert(v@.map_values(|s: &'static str| s@) =~= inventory_names());
    v
}

/// The version-negotiation probe: always present, with the token pinned
/// to the registry checksum — so every call returns the same value, and
/// the token is never the null token.
pub fn api_guard() -> (r: Option<APIVersion>)
    ensures
        r matches Option::Some(v) && v.token == inventory_token() && v.token >= 1,
{
    let names = my_inventory();
    let ghost model = names@.map_values(|s: &'static str| s@);
    let mut h: u64 = 1;
    let mut i: usize = 0;
    assert(model.take(0) =~= Seq::<Seq<char>>::empty());
    while i < names.len()
        invariant
            i <= names@.len(),
            model == names@.map_values(|s: &'static str| s@),
            h == token_of_names(1, model.take(i as int)),
            0 <= h < 1_000_000_007,
        decreases names@.len() - i,
    {
        let name: &str = names[i];
        let bytes: &[u8] = name.as_bytes();
        let ghost h0 = h as int;
        let mut j: usize = 0;
        assert(bytes@.take(0) =~= Seq::<u8>::empty());
        while j < bytes.len()
            invariant
                j <= bytes@.len(),
                h == token_of_bytes(h0, bytes@.take(j as int)),
                0 <= h < 1_000_000_007,
            decreases bytes@.len() - j,
        {
            let b = bytes[j];
            assert(bytes@.take(j + 1).drop_last() =~= bytes@.take(j as int));
            h = (h * 31 + (b as u64)) % 1_000_000_007;
            j += 1;
        }
        assert(bytes@.take(bytes@.len() as int) =~= bytes@);
        assert(model.take(i + 1).drop_last() =~= model.take(i as int));
        assert(model.take(i + 1).last() == name@);
        i += 1;
    }
    assert(model.take(model.len() as int) =~= model);
    Option::Some(APIVersion { token: h + 1 })
}

} // verus!
