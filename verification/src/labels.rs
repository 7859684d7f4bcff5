use vstd::prelude::*;
use vstd::string::StringSliceAdditionalSpecFns;

verus! {

/// The longest label, in bytes, that the orchestrator accepts.
pub const MAX_LABEL_BYTES: usize = 96;

/// A byte that may stand in a label: an ASCII letter or digit, `-` or `_`.
pub open spec fn is_label_byte(b: u8) -> bool {
    ||| 0x30 <= b <= 0x39
    ||| 0x41 <= b <= 0x5a
    ||| 0x61 <= b <= 0x7a
    ||| b == 0x2d
    ||| b == 0x5f
}

/// A label is non-empty, at most `MAX_LABEL_BYTES` bytes long and made of
/// label bytes only.
pub open spec fn is_safe_label(bytes: Seq<u8>) -> bool {
    &&& 0 < bytes.len() <= MAX_LABEL_BYTES
    &&& forall|i: int| 0 <= i < bytes.len() ==> is_label_byte(#[trigger] bytes[i])
}

/// Tells whether one byte is a label byte.
pub fn label_byte(b: u8) -> (res: bool)
    ensures
        res == is_label_byte(b),
{
    (b >= 0x30 && b <= 0x39) || (b >= 0x41 && b <= 0x5a) || (b >= 0x61 && b <= 0x7a) || b == 0x2d
        || b == 0x5f
}

/// Tells whether `value` is a safe label (see `is_safe_label`), judged on
/// its UTF-8 bytes.
pub fn safe_label(value: &str) -> (res: bool)
    ensures
        res == is_safe_label(value.spec_bytes()),
{
    let bytes = value.as_bytes();
    let n = bytes.len();
    if n == 0 || n > MAX_LABEL_BYTES {
        return false;
    }
    let mut i: usize = 0;
    while i < n
        invariant
            n == bytes@.len(),
            bytes@ == value.spec_bytes(),
            0 <= i <= n,
            forall|j: int| 0 <= j < i ==> is_label_byte(#[trigger] bytes@[j]),
        decreases n - i,
    {
        if !label_byte(bytes[i]) {
            return false;
        }
        i = i + 1;
    }
    true
}

/// A label is accepted exactly when it has between 1 and 96 bytes and each
/// byte is an ASCII digit, an ASCII letter of either case, `-` or `_`.
pub proof fn law_safe_label_bytes(bytes: Seq<u8>)
    ensures
        is_safe_label(bytes) <==> {
            &&& 1 <= bytes.len() <= 96
            &&& forall|i: int|
                0 <= i < bytes.len() ==> {
                    let b = #[trigger] bytes[i];
                    ||| (48 <= b && b <= 57)
                    ||| (65 <= b && b <= 90)
                    ||| (97 <= b && b <= 122)
                    ||| b == 45
                    ||| b == 95
                }
        },
{
}

} // verus!
