//! One-time tokens that guard the invoke callback channel against forged messages.

use vstd::prelude::*;
use vstd::string::StrSliceExecFns;

verus! {

/// Relies on std's `RandomState::new`: a hasher builder keyed with random keys.
#[verifier::external_body]
fn fresh_keys() -> std::collections::hash_map::RandomState {
    std::collections::hash_map::RandomState::new()
}

/// Relies on std's `BuildHasher::hash_one`: the keyed hash of `n`; nothing is promised of
/// its value.
#[verifier::external_body]
fn keyed_hash(keys: &std::collections::hash_map::RandomState, n: u64) -> u64 {
    std::hash::BuildHasher::hash_one(keys, n)
}

/// The character of a decimal digit.
pub open spec fn digit_char(d: nat) -> char {
    seq!['0', '1', '2', '3', '4', '5', '6', '7', '8', '9'][d as int]
}

/// The decimal notation of `n`, without leading zeros.
pub open spec fn decimal(n: nat) -> Seq<char>
    decreases n,
{
    if n < 10 {
        seq![digit_char(n)]
    } else {
        decimal(n / 10).push(digit_char(n % 10))
    }
}

/// Appends the decimal notation of `n` to `out`.
pub fn push_decimal(out: &mut String, n: u64)
    ensures
        final(out)@ == old(out)@ + decimal(n as nat),
    decreases n,
{
    if n >= 10 {
        push_decimal(out, n / 10);
    }
    let d = (n % 10) as usize;
    let digits = "0123456789";
    proof {
        reveal_strlit("0123456789");
    }
    out.append(digits.substring_char(d, d + 1));
    proof {
        assert(digits@.subrange(d as int, d + 1) =~= seq![digit_char(d as nat)]);
        assert(out@ =~= old(out)@ + decimal(n as nat));
    }
}

/// The code of a decimal digit's character.
proof fn lemma_digit_code(d: nat)
    requires
        d < 10,
    ensures
        digit_char(d) as u32 == 48 + d,
{
    if d == 0 {
        assert(digit_char(d) == '0');
    } else if d == 1 {
        assert(digit_char(d) == '1');
    } else if d == 2 {
        assert(digit_char(d) == '2');
    } else if d == 3 {
        assert(digit_char(d) == '3');
    } else if d == 4 {
        assert(digit_char(d) == '4');
    } else if d == 5 {
        assert(digit_char(d) == '5');
    } else if d == 6 {
        assert(digit_char(d) == '6');
    } else if d == 7 {
        assert(digit_char(d) == '7');
    } else if d == 8 {
        assert(digit_char(d) == '8');
    } else {
        assert(digit_char(d) == '9');
    }
}

/// Decimal notation holds digits only, and has two or more of them from ten on.
proof fn lemma_decimal_digits(n: nat)
    ensures
        forall|i: int| 0 <= i < decimal(n).len() ==> 48 <= (#[trigger] decimal(n)[i]) as u32 <= 57,
        decimal(n).len() >= 1,
        n >= 10 ==> decimal(n).len() >= 2,
    decreases n,
{
    if n < 10 {
        lemma_digit_code(n);
    } else {
        lemma_decimal_digits(n / 10);
        lemma_digit_code(n % 10);
        let d = decimal(n);
        assert forall|i: int| 0 <= i < d.len() implies 48 <= (#[trigger] d[i]) as u32 <= 57 by {
            if i < d.len() - 1 {
                assert(d[i] == decimal(n / 10)[i]);
            }
        }
    }
}

/// Distinct numbers have distinct decimal notations.
proof fn lemma_decimal_injective(a: nat, b: nat)
    requires
        decimal(a) == decimal(b),
    ensures
        a == b,
    decreases a,
{
    lemma_decimal_digits(a);
    lemma_decimal_digits(b);
    if a < 10 {
        lemma_digit_code(a);
        if b >= 10 {
            assert(decimal(b).len() >= 2);
        } else {
            lemma_digit_code(b);
            assert(decimal(a)[0] == digit_char(a));
            assert(decimal(b)[0] == digit_char(b));
        }
    } else {
        if b < 10 {
            assert(decimal(a).len() >= 2);
        } else {
            let da = decimal(a);
            let db = decimal(b);
            assert(da.last() == db.last());
            assert(da.last() == digit_char(a % 10));
            assert(db.last() == digit_char(b % 10));
            lemma_digit_code(a % 10);
            lemma_digit_code(b % 10);
            assert(a % 10 == b % 10);
            assert(da.drop_last() =~= decimal(a / 10));
            assert(db.drop_last() =~= decimal(b / 10));
            assert(da.drop_last() == db.drop_last());
            lemma_decimal_injective(a / 10, b / 10);
            let q = a / 10;
            let ra = a % 10;
            let rb = b % 10;
            assert(a == 10 * q + ra) by (nonlinear_arith)
                requires q == a / 10, ra == a % 10;
            assert(b == 10 * q + rb) by (nonlinear_arith)
                requires q == b / 10, rb == b % 10;
        }
    }
}

/// The text of the salt issued as number `k`, with the keyed hash `h`.
pub open spec fn salt_text(k: nat, h: nat) -> Seq<char> {
    decimal(k) + seq!['-'] + decimal(h)
}

/// A salt's text gives back the number it was issued as.
proof fn lemma_salt_text_injective(k1: nat, h1: nat, k2: nat, h2: nat)
    requires
        salt_text(k1, h1) == salt_text(k2, h2),
    ensures
        k1 == k2,
{
    lemma_decimal_digits(k1);
    lemma_decimal_digits(k2);
    let a = decimal(k1);
    let b = decimal(k2);
    let s = salt_text(k1, h1);
    assert(s[a.len() as int] == '-');
    assert(salt_text(k2, h2)[b.len() as int] == '-');
    if a.len() < b.len() {
        assert(s[a.len() as int] == b[a.len() as int]);
    } else if b.len() < a.len() {
        assert(s[b.len() as int] == a[b.len() as int]);
    } else {
        assert forall|i: int| 0 <= i < a.len() implies a[i] == b[i] by {
            assert(s[i] == a[i]);
            assert(salt_text(k2, h2)[i] == b[i]);
        }
        assert(a =~= b);
        lemma_decimal_injective(k1, k2);
    }
}

/// The set of salts issued and not yet used.
pub struct SaltPool {
    salts: Vec<String>,
    keys: std::collections::hash_map::RandomState,
    issued: u64,
    ever: Ghost<Set<Seq<char>>>,
}

impl SaltPool {
    /// Every salt issued so far, used or not.
    pub closed spec fn issued(&self) -> Set<Seq<char>> {
        self.ever@
    }

    /// How many salts have been issued.
    pub closed spec fn count(&self) -> nat {
        self.issued as nat
    }

    /// The salts that verify were issued, and every issued salt carries a number below
    /// the count.
    pub closed spec fn wf(&self) -> bool {
        &&& self.contents().subset_of(self.ever@)
        &&& forall|s: Seq<char>|
            #[trigger] self.ever@.contains(s) ==> exists|k: nat, h: nat|
                k < self.issued && s == salt_text(k, h)
    }

    /// How many salts have been issued.
    pub fn issued_count(&self) -> (r: u64)
        ensures
            r as nat == self.count(),
    {
        self.issued
    }

    /// The salts that would verify now.
    pub closed spec fn contents(&self) -> Set<Seq<char>> {
        self.salts@.map_values(|s: String| s@).to_set()
    }

    /// A pool with no salts, keyed with fresh random keys.
    pub fn new() -> (r: SaltPool)
        ensures
            r.wf(),
            r.contents() == Set::<Seq<char>>::empty(),
            r.issued() == Set::<Seq<char>>::empty(),
            r.count() == 0,
    {
        let r = SaltPool {
            salts: Vec::new(),
            keys: fresh_keys(),
            issued: 0,
            ever: Ghost(Set::empty()),
        };
        proof {
            assert(r.salts@.map_values(|s: String| s@) =~= Seq::<Seq<char>>::empty());
        }
        r
    }

    /// Issues a new salt: its issue number, a dash, and a keyed random hash. It differs
    /// from every salt issued before, and verifies once.
    pub fn generate_salt(&mut self) -> (r: String)
        requires
            old(self).wf(),
            old(self).count() < u64::MAX,
        ensures
            final(self).wf(),
            !old(self).issued().contains(r@),
            final(self).issued() == old(self).issued().insert(r@),
            final(self).contents() == old(self).contents().insert(r@),
            final(self).count() == old(self).count() + 1,
    {
        let k = self.issued;
        let word = keyed_hash(&self.keys, k);
        let mut salt = String::new();
        push_decimal(&mut salt, k);
        salt.append("-");
        push_decimal(&mut salt, word);
        proof {
            reveal_strlit("-");
            assert(salt@ =~= salt_text(k as nat, word as nat));
            if self.ever@.contains(salt@) {
                let (k2, h2) = choose|k2: nat, h2: nat| k2 < k && salt@ == salt_text(k2, h2);
                lemma_salt_text_injective(k as nat, word as nat, k2, h2);
            }
        }
        self.issued = k + 1;
        self.ever = Ghost(self.ever@.insert(salt@));
        let ghost before = self.salts@;
        self.salts.push(salt.clone());
        proof {
            assert(self.salts@.map_values(|s: String| s@) =~= before.map_values(|s: String| s@).push(
                salt@,
            ));
            before.map_values(|s: String| s@).lemma_push_to_set_commute(salt@);
            assert forall|s: Seq<char>| #[trigger] self.ever@.contains(s) implies exists|k2: nat, h: nat|
                k2 < self.issued && s == salt_text(k2, h) by {
                if s == salt@ {
                    assert(s == salt_text(k as nat, word as nat));
                } else {
                    let (k2, h) = choose|k2: nat, h: nat| k2 < k && s == salt_text(k2, h);
                    assert(k2 < self.issued && s == salt_text(k2, h));
                }
            }
        }
        salt
    }

    /// Whether `salt` was issued and not used yet; using it removes it from the pool.
    pub fn verify_salt(&mut self, salt: &String) -> (r: bool)
        requires
            old(self).wf(),
        ensures
            final(self).wf(),
            final(self).issued() == old(self).issued(),
            final(self).count() == old(self).count(),
            r == old(self).contents().contains(salt@),
            final(self).contents() == old(self).contents().remove(salt@),
    {
        let ghost old_salts = self.salts@;
        let mut kept: Vec<String> = Vec::new();
        let mut found = false;
        let mut i: usize = 0;
        while i < self.salts.len()
            invariant
                self.salts@ == old_salts,
                0 <= i <= old_salts.len(),
                kept@.map_values(|s: String| s@).to_set() == old_salts.take(i as int).map_values(
                    |s: String| s@,
                ).to_set().remove(salt@),
                found == old_salts.take(i as int).map_values(|s: String| s@).to_set().contains(salt@),
            decreases old_salts.len() - i,
        {
            let s = &self.salts[i];
            let ghost k0 = kept@;
            let ghost t0 = old_salts.take(i as int).map_values(|s: String| s@);
            proof {
                assert(old_salts.take(i + 1).map_values(|s: String| s@) =~= t0.push(s@));
                t0.lemma_push_to_set_commute(s@);
            }
            if *s == *salt {
                found = true;
                proof {
                    assert(t0.to_set().insert(s@).remove(salt@) =~= t0.to_set().remove(salt@));
                }
            } else {
                kept.push(s.clone());
                proof {
                    assert(kept@.map_values(|s: String| s@) =~= k0.map_values(|s: String| s@).push(s@));
                    k0.map_values(|s: String| s@).lemma_push_to_set_commute(s@);
                    assert(t0.to_set().insert(s@).remove(salt@) =~= t0.to_set().remove(salt@).insert(s@));
                }
            }
            i = i + 1;
        }
        proof {
            assert(old_salts.take(old_salts.len() as int) =~= old_salts);
        }
        self.salts = kept;
        found
    }
}

/// A salt verifies exactly once: a salt that `generate_salt` issues was never issued
/// before, so it did not verify before; after it is issued the pool contains it, so
/// `verify_salt` accepts it; after that verification the pool no longer does, so a second
/// one fails.
pub proof fn lemma_salt_verifies_once(pool: SaltPool, salt: Seq<char>)
    requires
        pool.wf(),
        !pool.issued().contains(salt),
    ensures
        !pool.contents().contains(salt),
        pool.contents().insert(salt).contains(salt),
        !pool.contents().insert(salt).remove(salt).contains(salt),
{
}

} // verus!
