use vstd::prelude::*;

use crate::text::{owned, prefixed, starts_with, str_eq};

verus! {

/// A downstream registration: its id, the label prefix it owns and the
/// digest of its credential.
#[derive(Clone, Debug)]
pub struct Registration {
    pub id: String,
    pub prefix: String,
    pub digest: String,
}

/// What registering a downstream does.
#[derive(Clone, Copy, Debug, PartialEq, Eq, Structural)]
pub enum Registered {
    /// The same registration exists already, at this position: it stands.
    Existing(usize),
    /// The registration is new and is stored.
    Insert,
}

/// Two label prefixes overlap when one begins with the other.
pub open spec fn overlaps(a: Seq<char>, b: Seq<char>) -> bool {
    prefixed(a, b) || prefixed(b, a)
}

/// The first position whose registration has id `id`, or the length.
pub open spec fn first_id(regs: Seq<Registration>, id: Seq<char>) -> int
    decreases regs.len(),
{
    if regs.len() == 0 {
        0
    } else if regs[0].id@ == id {
        0
    } else {
        1 + first_id(regs.drop_first(), id)
    }
}

proof fn lemma_first_id(regs: Seq<Registration>, id: Seq<char>, k: int)
    requires
        0 <= k <= regs.len(),
        forall|j: int| 0 <= j < k ==> (#[trigger] regs[j]).id@ != id,
        k == regs.len() || regs[k].id@ == id,
    ensures
        first_id(regs, id) == k,
    decreases regs.len(),
{
    if regs.len() > 0 && k > 0 {
        assert(regs[0].id@ != id);
        assert forall|j: int| 0 <= j < k - 1 implies (#[trigger] regs.drop_first()[j]).id@ != id by {
            assert(regs.drop_first()[j] == regs[j + 1]);
        }
        if k < regs.len() {
            assert(regs.drop_first()[k - 1] == regs[k]);
        }
        lemma_first_id(regs.drop_first(), id, k - 1);
    }
}

proof fn lemma_first_id_found(regs: Seq<Registration>, id: Seq<char>)
    ensures
        0 <= first_id(regs, id) <= regs.len(),
        first_id(regs, id) < regs.len() ==> regs[first_id(regs, id)].id@ == id,
        forall|j: int| 0 <= j < first_id(regs, id) ==> (#[trigger] regs[j]).id@ != id,
    decreases regs.len(),
{
    if regs.len() > 0 && regs[0].id@ != id {
        let rest = regs.drop_first();
        lemma_first_id_found(rest, id);
        assert forall|j: int| 0 <= j < first_id(regs, id) implies (#[trigger] regs[j]).id@ != id by {
            if j > 0 {
                assert(regs[j] == rest[j - 1]);
            }
        }
        if first_id(rest, id) < rest.len() {
            assert(regs[first_id(regs, id)] == rest[first_id(rest, id)]);
        }
    }
}

/// The rules of downstream registration: an id already registered stands
/// when its prefix and digest are the same and conflicts otherwise; a new
/// registration must not overlap the prefix of any other, nor reuse a
/// credential digest.
pub open spec fn register_spec(
    regs: Seq<Registration>,
    id: Seq<char>,
    prefix: Seq<char>,
    digest: Seq<char>,
) -> Result<Registered, Seq<char>> {
    let k = first_id(regs, id);
    if k < regs.len() {
        if regs[k].prefix@ == prefix && regs[k].digest@ == digest {
            Ok(Registered::Existing(k as usize))
        } else {
            Err("downstream id conflicts with an existing registration"@)
        }
    } else if exists|i: int| 0 <= i < regs.len() && overlaps(#[trigger] regs[i].prefix@, prefix) {
        Err("downstream prefix overlaps an existing registration"@)
    } else if exists|i: int| 0 <= i < regs.len() && #[trigger] regs[i].digest@ == digest {
        Err("downstream digest is already registered"@)
    } else {
        Ok(Registered::Insert)
    }
}

/// Decides a downstream registration against those stored.
pub fn register(regs: &Vec<Registration>, id: &str, prefix: &str, digest: &str) -> (r: Result<
    Registered,
    String,
>)
    ensures
        match register_spec(regs@, id@, prefix@, digest@) {
            Ok(x) => r == Ok::<Registered, String>(x),
            Err(m) => r matches Err(e) && e@ == m,
        },
{
    let mut k: usize = 0;
    while k < regs.len()
        invariant
            k <= regs@.len(),
            forall|j: int| 0 <= j < k ==> (#[trigger] regs@[j]).id@ != id@,
        decreases regs.len() - k,
    {
        if str_eq(regs[k].id.as_str(), id) {
            proof {
                lemma_first_id(regs@, id@, k as int);
            }
            if str_eq(regs[k].prefix.as_str(), prefix) && str_eq(regs[k].digest.as_str(), digest) {
                return Ok(Registered::Existing(k));
            }
            return Err(owned("downstream id conflicts with an existing registration"));
        }
        k = k + 1;
    }
    proof {
        lemma_first_id(regs@, id@, k as int);
    }
    let mut i: usize = 0;
    while i < regs.len()
        invariant
            i <= regs@.len(),
            first_id(regs@, id@) == regs@.len(),
            forall|j: int| 0 <= j < i ==> !overlaps(#[trigger] regs@[j].prefix@, prefix@),
        decreases regs.len() - i,
    {
        let p = regs[i].prefix.as_str();
        if starts_with(p, prefix) || starts_with(prefix, p) {
            assert(overlaps(regs@[i as int].prefix@, prefix@));
            return Err(owned("downstream prefix overlaps an existing registration"));
        }
        i = i + 1;
    }
    let mut j: usize = 0;
    while j < regs.len()
        invariant
            j <= regs@.len(),
            first_id(regs@, id@) == regs@.len(),
            forall|q: int| 0 <= q < regs@.len() ==> !overlaps(#[trigger] regs@[q].prefix@, prefix@),
            forall|q: int| 0 <= q < j ==> (#[trigger] regs@[q]).digest@ != digest@,
        decreases regs.len() - j,
    {
        if str_eq(regs[j].digest.as_str(), digest) {
            assert(regs@[j as int].digest@ == digest@);
            return Err(owned("downstream digest is already registered"));
        }
        j = j + 1;
    }
    Ok(Registered::Insert)
}

/// A registry whose prefixes do not overlap and whose digests differ.
pub open spec fn registry_sound(regs: Seq<Registration>) -> bool {
    forall|a: int, b: int|
        0 <= a < regs.len() && 0 <= b < regs.len() && a != b ==> !overlaps(
            #[trigger] regs[a].prefix@,
            #[trigger] regs[b].prefix@,
        ) && regs[a].digest@ != regs[b].digest@
}

/// Registering keeps the registry sound: once a registration is inserted,
/// no two prefixes overlap and no two digests are equal.
pub proof fn registration_keeps_registry_sound(
    regs: Seq<Registration>,
    new: Registration,
)
    requires
        registry_sound(regs),
        register_spec(regs, new.id@, new.prefix@, new.digest@) == Ok::<Registered, Seq<char>>(
            Registered::Insert,
        ),
    ensures
        registry_sound(regs.push(new)),
{
    let all = regs.push(new);
    let n = regs.len() as int;
    assert(first_id(regs, new.id@) >= n);
    assert(forall|i: int| 0 <= i < n ==> !overlaps(#[trigger] regs[i].prefix@, new.prefix@));
    assert(forall|i: int| 0 <= i < n ==> #[trigger] regs[i].digest@ != new.digest@);
    assert forall|a: int, b: int|
        0 <= a < all.len() && 0 <= b < all.len() && a != b implies !overlaps(
            #[trigger] all[a].prefix@,
            #[trigger] all[b].prefix@,
        ) && all[a].digest@ != all[b].digest@ by {
        if a == n {
            assert(all[b] == regs[b]);
            assert(!overlaps(regs[b].prefix@, new.prefix@));
            assert(regs[b].digest@ != new.digest@);
        } else if b == n {
            assert(all[a] == regs[a]);
            assert(!overlaps(regs[a].prefix@, new.prefix@));
            assert(regs[a].digest@ != new.digest@);
        } else {
            assert(all[a] == regs[a]);
            assert(all[b] == regs[b]);
            assert(!overlaps(regs[a].prefix@, regs[b].prefix@));
        }
    }
}

/// Replaying a downstream request: the payload must be the one accepted
/// under its key.
pub fn replay_matches(accepted: &str, digest: &str) -> (r: Result<(), String>)
    ensures
        accepted@ == digest@ ==> r is Ok,
        accepted@ != digest@ ==> (r matches Err(e) && e@
            == "downstream request conflicts with an accepted payload"@),
{
    if str_eq(accepted, digest) {
        Ok(())
    } else {
        Err(owned("downstream request conflicts with an accepted payload"))
    }
}

/// What registering answers, over the stored registrations (as many as a
/// `Vec` holds): a registration
/// stands only when one with the same id, prefix and digest is stored (the
/// first with that id); an id stored with another prefix or digest is a
/// conflict; a new id is stored only when no stored prefix overlaps its
/// prefix and no stored registration has its digest.
pub proof fn registration_answers(
    regs: Seq<Registration>,
    id: Seq<char>,
    prefix: Seq<char>,
    digest: Seq<char>,
)
    requires
        regs.len() <= usize::MAX,
    ensures
        ({
            let r = register_spec(regs, id, prefix, digest);
            &&& match r {
                Ok(Registered::Existing(k)) => {
                    &&& k < regs.len()
                    &&& regs[k as int].id@ == id
                    &&& regs[k as int].prefix@ == prefix
                    &&& regs[k as int].digest@ == digest
                    &&& forall|j: int| 0 <= j < k ==> (#[trigger] regs[j]).id@ != id
                },
                _ => true,
            }
            &&& (exists|i: int| 0 <= i < regs.len() && (#[trigger] regs[i]).id@ == id && (
            regs[i].prefix@ != prefix || regs[i].digest@ != digest) && (forall|j: int|
                0 <= j < i ==> (#[trigger] regs[j]).id@ != id)) ==> r == Err::<Registered, Seq<char>>(
                "downstream id conflicts with an existing registration"@,
            )
            &&& r == Ok::<Registered, Seq<char>>(Registered::Insert) ==> forall|i: int|
                0 <= i < regs.len() ==> (#[trigger] regs[i]).id@ != id && !overlaps(
                    regs[i].prefix@,
                    prefix,
                ) && regs[i].digest@ != digest
        }),
{
    lemma_first_id_found(regs, id);
    let k = first_id(regs, id);
    if exists|i: int| 0 <= i < regs.len() && (#[trigger] regs[i]).id@ == id && (
    regs[i].prefix@ != prefix || regs[i].digest@ != digest) && (forall|j: int|
        0 <= j < i ==> (#[trigger] regs[j]).id@ != id) {
        let i = choose|i: int| 0 <= i < regs.len() && (#[trigger] regs[i]).id@ == id && (
        regs[i].prefix@ != prefix || regs[i].digest@ != digest) && (forall|j: int|
            0 <= j < i ==> (#[trigger] regs[j]).id@ != id);
        if k < i {
            assert(regs[k].id@ == id);
        }
        if i < k {
            assert(regs[i].id@ != id);
        }
        assert(k == i);
    }
    if k == regs.len() {
        assert forall|i: int| 0 <= i < regs.len() implies (#[trigger] regs[i]).id@ != id by {}
    }
}

} // verus!
