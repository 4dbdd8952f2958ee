use vstd::prelude::*;

verus! {

/// A UTF-8 continuation byte: `0x80..=0xBF`.
pub open spec fn is_continuation(b: u8) -> bool {
    0x80 <= b && b <= 0xBF
}

/// Well-formed UTF-8, following the byte-sequence table of RFC 3629:
/// each scalar value is encoded in one to four bytes, overlong forms,
/// surrogates and values above U+10FFFF are excluded by the ranges below.
pub open spec fn is_utf8(s: Seq<u8>) -> bool
    decreases s.len(),
{
    if s.len() == 0 {
        true
    } else {
        let b = s[0];
        if b < 0x80 {
            is_utf8(s.skip(1))
        } else if 0xC2 <= b && b <= 0xDF {
            s.len() >= 2 && is_continuation(s[1]) && is_utf8(s.skip(2))
        } else if b == 0xE0 {
            s.len() >= 3 && 0xA0 <= s[1] && s[1] <= 0xBF && is_continuation(s[2])
                && is_utf8(s.skip(3))
        } else if (0xE1 <= b && b <= 0xEC) || b == 0xEE || b == 0xEF {
            s.len() >= 3 && is_continuation(s[1]) && is_continuation(s[2])
                && is_utf8(s.skip(3))
        } else if b == 0xED {
            s.len() >= 3 && 0x80 <= s[1] && s[1] <= 0x9F && is_continuation(s[2])
                && is_utf8(s.skip(3))
        } else if b == 0xF0 {
            s.len() >= 4 && 0x90 <= s[1] && s[1] <= 0xBF && is_continuation(s[2])
                && is_continuation(s[3]) && is_utf8(s.skip(4))
        } else if 0xF1 <= b && b <= 0xF3 {
            s.len() >= 4 && is_continuation(s[1]) && is_continuation(s[2])
                && is_continuation(s[3]) && is_utf8(s.skip(4))
        } else if b == 0xF4 {
            s.len() >= 4 && 0x80 <= s[1] && s[1] <= 0x8F && is_continuation(s[2])
                && is_continuation(s[3]) && is_utf8(s.skip(4))
        } else {
            false
        }
    }
}

proof fn lemma_skip_skip(s: Seq<u8>, a: int, b: int)
    requires
        0 <= a,
        0 <= b,
        a + b <= s.len(),
    ensures
        s.skip(a).skip(b) == s.skip(a + b),
{
    assert(s.skip(a).skip(b) =~= s.skip(a + b));
}

/// Decides UTF-8 well-formedness of a whole byte slice.
pub fn check_utf8(s: &[u8]) -> (r: bool)
    ensures
        r == is_utf8(s@),
{
    let n = s.len();
    let mut i: usize = 0;
    proof {
        assert(s@.skip(0) =~= s@);
    }
    while i < n
        invariant
            i <= n == s@.len(),
            is_utf8(s@) == is_utf8(s@.skip(i as int)),
        decreases n - i,
    {
        let rem = n - i;
        let b = s[i];
        if b < 0x80 {
            proof {
                lemma_skip_skip(s@, i as int, 1);
            }
            i = i + 1;
        } else if 0xC2 <= b && b <= 0xDF {
            if rem < 2 || !(0x80 <= s[i + 1] && s[i + 1] <= 0xBF) {
                return false;
            }
            proof {
                lemma_skip_skip(s@, i as int, 2);
            }
            i = i + 2;
        } else if b == 0xE0 {
            if rem < 3 || !(0xA0 <= s[i + 1] && s[i + 1] <= 0xBF)
                || !(0x80 <= s[i + 2] && s[i + 2] <= 0xBF) {
                return false;
            }
            proof {
                lemma_skip_skip(s@, i as int, 3);
            }
            i = i + 3;
        } else if (0xE1 <= b && b <= 0xEC) || b == 0xEE || b == 0xEF {
            if rem < 3 || !(0x80 <= s[i + 1] && s[i + 1] <= 0xBF)
                || !(0x80 <= s[i + 2] && s[i + 2] <= 0xBF) {
                return false;
            }
            proof {
                lemma_skip_skip(s@, i as int, 3);
            }
            i = i + 3;
        } else if b == 0xED {
            if rem < 3 || !(0x80 <= s[i + 1] && s[i + 1] <= 0x9F)
                || !(0x80 <= s[i + 2] && s[i + 2] <= 0xBF) {
                return false;
            }
            proof {
                lemma_skip_skip(s@, i as int, 3);
            }
            i = i + 3;
        } else if b == 0xF0 {
            if rem < 4 || !(0x90 <= s[i + 1] && s[i + 1] <= 0xBF)
                || !(0x80 <= s[i + 2] && s[i + 2] <= 0xBF)
                || !(0x80 <= s[i + 3] && s[i + 3] <= 0xBF) {
                return false;
            }
            proof {
                lemma_skip_skip(s@, i as int, 4);
            }
            i = i + 4;
        } else if 0xF1 <= b && b <= 0xF3 {
            if rem < 4 || !(0x80 <= s[i + 1] && s[i + 1] <= 0xBF)
                || !(0x80 <= s[i + 2] && s[i + 2] <= 0xBF)
                || !(0x80 <= s[i + 3] && s[i + 3] <= 0xBF) {
                return false;
            }
            proof {
                lemma_skip_skip(s@, i as int, 4);
            }
            i = i + 4;
        } else if b == 0xF4 {
            if rem < 4 || !(0x80 <= s[i + 1] && s[i + 1] <= 0x8F)
                || !(0x80 <= s[i + 2] && s[i + 2] <= 0xBF)
                || !(0x80 <= s[i + 3] && s[i + 3] <= 0xBF) {
                return false;
            }
            proof {
                lemma_skip_skip(s@, i as int, 4);
            }
            i = i + 4;
        } else {
            return false;
        }
    }
    true
}

} // verus!
