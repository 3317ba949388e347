use vstd::prelude::*;
use vstd::string::*;

verus! {

/// One step of the FNV-1a accumulation: fold one byte into the hash.
pub open spec fn spec_hash_step(hash: u64, byte: u8) -> u64 {
    vstd::wrapping::u64_specs::wrapping_mul(hash ^ (byte as u64), 0x0000_0100_0000_01B3)
}

/// FNV-1a over the bytes of `s`, folded left to right starting from `hash`.
pub open spec fn spec_hash_bytes(hash: u64, s: Seq<u8>) -> u64
    decreases s.len(),
{
    if s.len() == 0 {
        hash
    } else {
        spec_hash_bytes(spec_hash_step(hash, s[0]), s.subrange(1, s.len() as int))
    }
}

/// The widget-kind hash: FNV-1a over the declaring scope, the file name and
/// the kind's name, in that order.
pub open spec fn spec_const_hash(scope: Seq<u8>, file: Seq<u8>, kind: Seq<u8>) -> u64 {
    spec_hash_bytes(spec_hash_bytes(spec_hash_bytes(0xcbf29ce484222325, scope), file), kind)
}

/// Folds the bytes of one string into the hash.
fn hash_str(hash: u64, s: &str) -> (r: u64)
    ensures
        r == spec_hash_bytes(hash, s.spec_bytes()),
{
    let bytes = s.as_bytes_vec();
    let mut h = hash;
    let n = bytes.len();
    let mut i: usize = 0;
    proof {
        assert(bytes.view().subrange(0, n as int) =~= bytes.view());
    }
    while i < n
        invariant
            0 <= i <= n,
            n == bytes.view().len(),
            spec_hash_bytes(hash, bytes.view()) == spec_hash_bytes(
                h,
                bytes.view().subrange(i as int, n as int),
            ),
        decreases n - i,
    {
        proof {
            let rest = bytes.view().subrange(i as int, n as int);
            assert(rest[0] == bytes.view()[i as int]);
            assert(rest.subrange(1, rest.len() as int) =~= bytes.view().subrange(
                i + 1,
                n as int,
            ));
        }
        h = (h ^ (bytes[i] as u64)).wrapping_mul(0x0000_0100_0000_01B3);
        i += 1;
    }
    proof {
        assert(bytes.view().subrange(n as int, n as int) =~= Seq::<u8>::empty());
    }
    h
}

/// A stable hash naming one widget kind, derived from where and under what
/// name the kind is declared.
pub fn create_const_hash(scope: &'static str, file: &'static str, kind: &'static str) -> (r: u64)
    ensures
        r == spec_const_hash(scope.spec_bytes(), file.spec_bytes(), kind.spec_bytes()),
{
    let mut hash: u64 = 0xcbf29ce484222325;
    hash = hash_str(hash, scope);
    hash = hash_str(hash, file);
    hash = hash_str(hash, kind);
    hash
}

} // verus!
