use crate::db::UserRecord;
use vstd::prelude::*;

verus! {

/// The lowercase hexadecimal digit for `d`, where `0 <= d < 16`.
pub open spec fn hex_digit(d: int) -> char {
    if d < 10 {
        ('0' as int + d) as char
    } else {
        ('a' as int + d - 10) as char
    }
}

/// The last `width` hexadecimal digits of `v`, most significant first, zero-padded.
pub open spec fn hex_fixed(v: nat, width: nat) -> Seq<char>
    decreases width,
{
    if width == 0 {
        Seq::empty()
    } else {
        hex_fixed(v / 16, (width - 1) as nat).push(hex_digit((v % 16) as int))
    }
}

/// The salt drawn from `seed`: the 64 bits of `seed` as 16 lowercase hexadecimal digits.
pub open spec fn salt_of(seed: u64) -> Seq<char> {
    hex_fixed(seed as nat, 16)
}

/// The lowercase hexadecimal BLAKE3 digest of the UTF-8 encoding of `s`.
pub uninterp spec fn blake3_hex(s: Seq<char>) -> Seq<char>;

/// The digest stored for `password` under `salt`.
pub open spec fn salted_digest(salt: Seq<char>, password: Seq<char>) -> Seq<char> {
    blake3_hex(salt + password)
}

/// Whether `password` is the one that `user` registered with.
pub open spec fn password_matches(user: UserRecord, password: Seq<char>) -> bool {
    user.password == salted_digest(user.salt, password)
}

/// Relies on `blake3::hash` of the string's bytes and `Hash::to_hex`, which encodes
/// the 32-byte digest as 64 lowercase hexadecimal digits.
#[verifier::external_body]
fn blake3_hex_of(s: &str) -> (r: String)
    ensures
        r@ == blake3_hex(s@),
        r@.len() == 64,
{
    blake3::hash(s.as_bytes()).to_hex().as_str().to_string()
}

/// The salt for a new user, from 64 random bits: their 16 lowercase
/// hexadecimal digits, most significant first.
pub fn make_salt(seed: u64) -> (r: String)
    ensures
        r@ == salt_of(seed),
        r@.len() == 16,
{
    let digits = "0123456789abcdef";
    proof {
        reveal_strlit("0123456789abcdef");
        assert forall|d: int| 0 <= d < 16 implies #[trigger] digits@[d] == hex_digit(d) by {
            assert(digits@ =~= seq!['0', '1', '2', '3', '4', '5', '6', '7', '8', '9', 'a', 'b', 'c', 'd', 'e', 'f']);
        }
    }
    let mut rest: u64 = seed;
    let mut out = String::new();
    let mut done: usize = 0;
    while done < 16
        invariant
            done <= 16,
            digits@.len() == 16,
            forall|d: int| 0 <= d < 16 ==> #[trigger] digits@[d] == hex_digit(d),
            hex_fixed(seed as nat, 16) == hex_fixed(rest as nat, (16 - done) as nat) + out@,
        decreases 16 - done,
    {
        let d = (rest % 16) as usize;
        let piece = digits.substring_char(d, d + 1);
        let ghost before = out@;
        out = piece.to_string().concat(out.as_str());
        proof {
            assert(piece@ =~= seq![hex_digit(d as int)]);
            let w = (16 - done) as nat;
            assert(hex_fixed(rest as nat, w) == hex_fixed((rest / 16) as nat, (w - 1) as nat).push(
                hex_digit((rest % 16) as int),
            ));
            assert(hex_fixed((rest / 16) as nat, (w - 1) as nat).push(hex_digit(d as int)) + before
                =~= hex_fixed((rest / 16) as nat, (w - 1) as nat) + out@);
        }
        rest = rest / 16;
        done = done + 1;
    }
    assert(hex_fixed(rest as nat, 0) + out@ =~= out@);
    proof {
        lemma_hex_fixed_len(seed as nat, 16);
    }
    out
}

/// The digest of `password` under `salt`: BLAKE3 of the salt followed by the password.
pub fn hash_password(salt: &str, password: &str) -> (r: String)
    ensures
        r@ == salted_digest(salt@, password@),
{
    let mut salted = salt.to_string();
    salted.append(password);
    blake3_hex_of(salted.as_str())
}

/// Whether `password`, salted with `salt`, hashes to the stored digest `digest`.
pub fn check_password(digest: &str, salt: &str, password: &str) -> (r: bool)
    ensures
        r == (digest@ == salted_digest(salt@, password@)),
{
    let computed = hash_password(salt, password);
    digests_equal(digest, computed.as_str())
}

/// Whether a stored digest and a freshly computed one hold the same characters.
pub fn digests_equal(a: &str, b: &str) -> (r: bool)
    ensures
        r == (a@ == b@),
{
    let n = a.unicode_len();
    if n != b.unicode_len() {
        return false;
    }
    let mut i: usize = 0;
    while i < n
        invariant
            n == a@.len() == b@.len(),
            i <= n,
            forall|j: int| 0 <= j < i ==> a@[j] == b@[j],
        decreases n - i,
    {
        if a.get_char(i) != b.get_char(i) {
            return false;
        }
        i = i + 1;
    }
    assert(a@ =~= b@);
    true
}

/// `hex_fixed` yields exactly `width` digits.
pub proof fn lemma_hex_fixed_len(v: nat, width: nat)
    ensures
        hex_fixed(v, width).len() == width,
    decreases width,
{
    if width > 0 {
        lemma_hex_fixed_len(v / 16, (width - 1) as nat);
    }
}

} // verus!
