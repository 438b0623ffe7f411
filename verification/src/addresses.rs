use vstd::prelude::*;
use vstd::multiset::Multiset;
use vstd::string::StrSliceExecFns;

use crate::text::{push_char, push_str, str_equal};

verus! {

broadcast use vstd::seq_lib::group_to_multiset_ensures;

/// Whether `RoomAliasId::parse` of `ruma` accepts a string as a room alias.
pub uninterp spec fn ruma_room_alias_valid(s: Seq<char>) -> bool;

/// `ruma::RoomAliasId::parse`: whether the string is a valid room alias
/// (`#localpart:server_name`, with a valid server name). The contract names
/// the result and states what the source checks first: an accepted string
/// starts with `#`.
#[verifier::external_body]
pub fn is_valid_room_alias(s: &str) -> (res: bool)
    ensures
        res == ruma_room_alias_valid(s@),
        res ==> s@.len() > 0 && s@[0] == '#',
{
    ruma::RoomAliasId::parse(s).is_ok()
}

/// A public address of a room, and whether it is the main one.
#[derive(Debug)]
pub struct PublicAddress {
    pub alias: String,
    pub is_main: bool,
}

/// The public addresses as `(alias, is_main)` pairs.
pub open spec fn addresses_view(v: Seq<PublicAddress>) -> Seq<(Seq<char>, bool)> {
    v.map_values(|a: PublicAddress| (a.alias@, a.is_main))
}

/// The index of the first pair whose key is `k`.
pub open spec fn find_first<V>(pending: Seq<(Seq<char>, V)>, k: Seq<char>) -> Option<int>
    decreases pending.len(),
{
    if pending.len() == 0 {
        None
    } else if pending[0].0 == k {
        Some(0)
    } else {
        match find_first(pending.drop_first(), k) {
            Some(i) => Some(i + 1),
            None => None,
        }
    }
}

/// The list after it was brought in line with the `pending` entries: in
/// order, an item whose key is pending stays with the value of the first
/// pending entry for it, which is then no longer pending; another item is
/// removed; the entries still pending are appended.
pub open spec fn reconcile<V>(current: Seq<Seq<char>>, pending: Seq<(Seq<char>, V)>) -> Seq<(Seq<char>, V)>
    decreases current.len(),
{
    if current.len() == 0 {
        pending
    } else {
        match find_first(pending, current[0]) {
            Some(p) => seq![(current[0], pending[p].1)] + reconcile(current.drop_first(), pending.remove(p)),
            None => reconcile(current.drop_first(), pending),
        }
    }
}

proof fn lemma_find_first<V>(pending: Seq<(Seq<char>, V)>, k: Seq<char>)
    ensures
        find_first(pending, k) matches Some(i) ==> 0 <= i < pending.len() && pending[i].0 == k,
        find_first(pending, k) is None ==> forall|j: int| 0 <= j < pending.len() ==> pending[j].0 != k,
    decreases pending.len(),
{
    if pending.len() > 0 {
        lemma_find_first(pending.drop_first(), k);
        if pending[0].0 != k {
            assert forall|j: int| 0 <= j < pending.len() && find_first(pending, k) is None implies pending[j].0 != k by {
                if j > 0 {
                    assert(pending[j] == pending.drop_first()[j - 1]);
                }
            }
        }
    }
}

proof fn lemma_find_first_index<V>(pending: Seq<(Seq<char>, V)>, k: Seq<char>, i: int)
    requires
        0 <= i < pending.len(),
        pending[i].0 == k,
        forall|j: int| 0 <= j < i ==> pending[j].0 != k,
    ensures
        find_first(pending, k) == Some(i),
    decreases i,
{
    if i > 0 {
        assert forall|j: int| 0 <= j < i - 1 implies pending.drop_first()[j].0 != k by {
            assert(pending.drop_first()[j] == pending[j + 1]);
        }
        lemma_find_first_index(pending.drop_first(), k, i - 1);
    }
}

proof fn lemma_find_first_none<V>(pending: Seq<(Seq<char>, V)>, k: Seq<char>)
    requires
        forall|j: int| 0 <= j < pending.len() ==> pending[j].0 != k,
    ensures
        find_first(pending, k) is None,
    decreases pending.len(),
{
    if pending.len() > 0 {
        assert forall|j: int| 0 <= j < pending.len() - 1 implies pending.drop_first()[j].0 != k by {
            assert(pending.drop_first()[j] == pending[j + 1]);
        }
        lemma_find_first_none(pending.drop_first(), k);
    }
}

/// Bringing a list in line with pending entries yields exactly the pending
/// entries, in some order: none is lost, none is duplicated.
pub proof fn law_reconcile_is_permutation<V>(current: Seq<Seq<char>>, pending: Seq<(Seq<char>, V)>)
    ensures
        reconcile(current, pending).to_multiset() == pending.to_multiset(),
    decreases current.len(),
{
    if current.len() > 0 {
        lemma_find_first(pending, current[0]);
        match find_first(pending, current[0]) {
            Some(p) => {
                law_reconcile_is_permutation(current.drop_first(), pending.remove(p));
                let head = seq![(current[0], pending[p].1)];
                assert(head[0] == pending[p]);
                vstd::seq_lib::lemma_multiset_commutative(head, reconcile(current.drop_first(), pending.remove(p)));
                assert(head =~= Seq::<(Seq<char>, V)>::empty().push(pending[p]));
                assert(pending.remove(p).to_multiset() == pending.to_multiset().remove(pending[p]));
                assert(pending.to_multiset().contains(pending[p]));
                assert(head.to_multiset() =~= Multiset::<(Seq<char>, V)>::empty().insert(pending[p]));
                assert(reconcile(current, pending).to_multiset() =~= pending.to_multiset());
            },
            None => {
                law_reconcile_is_permutation(current.drop_first(), pending);
            },
        }
    }
}

/// The aliases of a list of public addresses.
pub open spec fn aliases_of(v: Seq<PublicAddress>) -> Seq<Seq<char>> {
    v.map_values(|a: PublicAddress| a.alias@)
}

/// Alternative aliases as `(alias, false)` pairs.
pub open spec fn alt_entries(alt_aliases: Seq<String>) -> Seq<(Seq<char>, bool)> {
    alt_aliases.map_values(|a: String| (a@, false))
}

/// The aliases of the room as `(alias, is_main)` pairs: the canonical alias,
/// then the alternative aliases.
pub open spec fn public_aliases(canonical_alias: Option<&str>, alt_aliases: Seq<String>) -> Seq<(Seq<char>, bool)> {
    let head = match canonical_alias {
        Some(a) => seq![(a@, true)],
        None => Seq::empty(),
    };
    head + alt_entries(alt_aliases)
}

proof fn lemma_view_push(s: Seq<PublicAddress>, a: PublicAddress)
    ensures
        addresses_view(s.push(a)) == addresses_view(s).push((a.alias@, a.is_main)),
{
    assert(addresses_view(s.push(a)) =~= addresses_view(s).push((a.alias@, a.is_main)));
}

proof fn lemma_view_remove(s: Seq<PublicAddress>, i: int)
    requires
        0 <= i < s.len(),
    ensures
        addresses_view(s.remove(i)) == addresses_view(s).remove(i),
{
    assert(addresses_view(s.remove(i)) =~= addresses_view(s).remove(i));
}

proof fn lemma_alt_entries_push(alt: Seq<String>, j: int)
    requires
        0 <= j < alt.len(),
    ensures
        alt_entries(alt.take(j + 1)) == alt_entries(alt.take(j)).push((alt[j]@, false)),
{
    assert(alt_entries(alt.take(j + 1)) =~= alt_entries(alt.take(j)).push((alt[j]@, false)));
}

/// Bring the list of public addresses in line with the aliases of the room:
/// the main (canonical) alias, then the alternative aliases.
///
/// Addresses that are still aliases stay in their place, marked main or not;
/// the others are removed; new aliases are appended in the order of the
/// room.
pub fn update_public_addresses(
    current: &Vec<PublicAddress>,
    canonical_alias: Option<&str>,
    alt_aliases: &Vec<String>,
) -> (res: Vec<PublicAddress>)
    ensures
        addresses_view(res@) == reconcile(
            aliases_of(current@),
            public_aliases(canonical_alias, alt_aliases@),
        ),
{
    let mut pending: Vec<PublicAddress> = Vec::new();
    match canonical_alias {
        Some(a) => {
            pending.push(PublicAddress { alias: a.to_string(), is_main: true });
        },
        None => {},
    }
    proof {
        assert(alt_entries(alt_aliases@.take(0)) =~= Seq::<(Seq<char>, bool)>::empty());
        assert(addresses_view(pending@) =~= public_aliases(canonical_alias, alt_aliases@.take(0)));
    }
    let mut j: usize = 0;
    while j < alt_aliases.len()
        invariant
            0 <= j <= alt_aliases@.len(),
            addresses_view(pending@) == public_aliases(canonical_alias, alt_aliases@.take(j as int)),
        decreases alt_aliases@.len() - j,
    {
        let ghost old_pending = pending@;
        let entry = PublicAddress { alias: alt_aliases[j].clone(), is_main: false };
        pending.push(entry);
        proof {
            lemma_view_push(old_pending, entry);
            lemma_alt_entries_push(alt_aliases@, j as int);
            assert(addresses_view(pending@) =~= public_aliases(canonical_alias, alt_aliases@.take(j as int + 1)));
        }
        j = j + 1;
    }
    proof {
        assert(alt_aliases@.take(alt_aliases@.len() as int) =~= alt_aliases@);
    }
    let ghost cur = aliases_of(current@);
    let ghost target = reconcile(cur, addresses_view(pending@));
    let mut res: Vec<PublicAddress> = Vec::new();
    let n = current.len();
    proof {
        assert(cur.subrange(0, n as int) =~= cur);
        assert(addresses_view(res@) =~= Seq::<(Seq<char>, bool)>::empty());
        assert(addresses_view(res@) + target =~= target);
    }
    let mut i: usize = 0;
    while i < n
        invariant
            n == current@.len(),
            cur == aliases_of(current@),
            0 <= i <= n,
            addresses_view(res@) + reconcile(cur.subrange(i as int, n as int), addresses_view(pending@)) == target,
        decreases n - i,
    {
        let ghost before = addresses_view(pending@);
        let ghost tail = cur.subrange(i as int, n as int);
        proof {
            assert(tail.drop_first() =~= cur.subrange(i as int + 1, n as int));
            assert(tail[0] == current@[i as int].alias@);
        }
        let alias = &current[i].alias;
        let mut p: usize = 0;
        let m = pending.len();
        while p < m
            invariant_except_break
                m == pending@.len(),
                0 <= p <= m,
                forall|q: int| 0 <= q < p ==> pending@[q].alias@ != alias@,
            ensures
                m == pending@.len(),
                0 <= p <= m,
                forall|q: int| 0 <= q < p ==> pending@[q].alias@ != alias@,
                p < m ==> pending@[p as int].alias@ == alias@,
            decreases m - p,
        {
            if pending[p].alias == *alias {
                break;
            }
            p = p + 1;
        }
        if p < m {
            proof {
                assert forall|q: int| 0 <= q < p implies before[q].0 != alias@ by {
                    assert(before[q] == (pending@[q].alias@, pending@[q].is_main));
                }
                assert(before[p as int].0 == alias@);
                lemma_find_first_index(before, alias@, p as int);
                lemma_view_remove(pending@, p as int);
            }
            let entry = pending.remove(p);
            let ghost old_res = res@;
            let kept_entry = PublicAddress { alias: alias.clone(), is_main: entry.is_main };
            res.push(kept_entry);
            proof {
                lemma_view_push(old_res, kept_entry);
                assert(addresses_view(res@) =~= addresses_view(old_res) + seq![(alias@, before[p as int].1)]);
                assert(reconcile(tail, before) == seq![(alias@, before[p as int].1)]
                    + reconcile(cur.subrange(i as int + 1, n as int), before.remove(p as int)));
                assert(addresses_view(res@) + reconcile(cur.subrange(i as int + 1, n as int), addresses_view(pending@))
                    =~= addresses_view(old_res) + reconcile(tail, before));
            }
        } else {
            proof {
                assert forall|q: int| 0 <= q < before.len() implies before[q].0 != alias@ by {
                    assert(before[q] == (pending@[q].alias@, pending@[q].is_main));
                }
                lemma_find_first_none(before, alias@);
                assert(reconcile(tail, before) == reconcile(cur.subrange(i as int + 1, n as int), before));
            }
        }
        i = i + 1;
    }
    let ghost kept = addresses_view(res@);
    let ghost rest = addresses_view(pending@);
    let m = pending.len();
    let mut pending = pending;
    proof {
        assert(rest.subrange(0, m as int) =~= rest);
        assert(kept + rest.take(0) =~= kept);
    }
    let mut q: usize = 0;
    while q < m
        invariant
            m == rest.len(),
            0 <= q <= m,
            pending@.len() == m - q,
            addresses_view(pending@) == rest.subrange(q as int, m as int),
            addresses_view(res@) == kept + rest.take(q as int),
        decreases m - q,
    {
        let ghost old_pending = pending@;
        let ghost old_res = res@;
        proof {
            lemma_view_remove(old_pending, 0);
        }
        let entry = pending.remove(0);
        res.push(entry);
        proof {
            lemma_view_push(old_res, entry);
            assert(addresses_view(old_pending)[0] == rest[q as int]);
            assert(addresses_view(pending@) =~= rest.subrange(q as int + 1, m as int));
            assert(rest.take(q as int + 1) =~= rest.take(q as int).push(rest[q as int]));
            assert(addresses_view(res@) =~= kept + rest.take(q as int + 1));
        }
        q = q + 1;
    }
    proof {
        assert(cur.subrange(n as int, n as int) =~= Seq::<Seq<char>>::empty());
        assert(rest.take(m as int) =~= rest);
    }
    res
}


/// The first occurrence of each string, in order.
pub open spec fn dedup(s: Seq<Seq<char>>) -> Seq<Seq<char>>
    decreases s.len(),
{
    if s.len() == 0 {
        s
    } else {
        let d = dedup(s.drop_last());
        if d.contains(s.last()) {
            d
        } else {
            d.push(s.last())
        }
    }
}

proof fn lemma_dedup(s: Seq<Seq<char>>)
    ensures
        forall|x: Seq<char>| dedup(s).contains(x) <==> s.contains(x),
        forall|i: int, j: int| 0 <= i < j < dedup(s).len() ==> dedup(s)[i] != dedup(s)[j],
    decreases s.len(),
{
    if s.len() > 0 {
        let p = s.drop_last();
        lemma_dedup(p);
        let d = dedup(p);
        let l = s.last();
        assert forall|x: Seq<char>| s.contains(x) <==> (p.contains(x) || x == l) by {
            if s.contains(x) {
                let k = choose|k: int| 0 <= k < s.len() && s[k] == x;
                if k < s.len() - 1 {
                    assert(p[k] == x);
                }
            }
            if p.contains(x) {
                let k = choose|k: int| 0 <= k < p.len() && p[k] == x;
                assert(s[k] == x);
            }
            if x == l {
                assert(s[s.len() - 1] == x);
            }
        }
        if !d.contains(l) {
            let e = d.push(l);
            assert(dedup(s) == e);
            assert forall|x: Seq<char>| e.contains(x) <==> (d.contains(x) || x == l) by {
                if d.contains(x) {
                    let k = choose|k: int| 0 <= k < d.len() && d[k] == x;
                    assert(e[k] == x);
                }
                if x == l {
                    assert(e[d.len() as int] == x);
                }
                if e.contains(x) {
                    let k = choose|k: int| 0 <= k < e.len() && e[k] == x;
                    if k < d.len() {
                        assert(d[k] == x);
                    }
                }
            }
            assert forall|i: int, j: int| 0 <= i < j < e.len() implies e[i] != e[j] by {
                if j == d.len() {
                    assert(e[i] == d[i]);
                    assert(d.contains(d[i]));
                } else {
                    assert(e[i] == d[i] && e[j] == d[j]);
                }
            }
        }
    }
}

/// Pairs each string with no value, to reconcile a list of strings.
pub open spec fn keyed(s: Seq<Seq<char>>) -> Seq<(Seq<char>, ())> {
    s.map_values(|a: Seq<char>| (a, ()))
}

/// The strings of a list of `(string, ())` pairs.
pub open spec fn unkeyed(s: Seq<(Seq<char>, ())>) -> Seq<Seq<char>> {
    s.map_values(|p: (Seq<char>, ())| p.0)
}

/// The local addresses after a refresh from the homeserver: those that are
/// still registered stay in their place, the others are removed, and the
/// newly registered ones are appended, each address once.
pub open spec fn spec_refreshed_local_addresses(current: Seq<Seq<char>>, registered: Seq<Seq<char>>) -> Seq<Seq<char>> {
    unkeyed(reconcile(current, keyed(dedup(registered))))
}

proof fn lemma_keyed_remove(s: Seq<Seq<char>>, i: int)
    requires
        0 <= i < s.len(),
    ensures
        keyed(s.remove(i)) == keyed(s).remove(i),
{
    assert(keyed(s.remove(i)) =~= keyed(s).remove(i));
}

proof fn lemma_unkeyed_concat(a: Seq<(Seq<char>, ())>, b: Seq<(Seq<char>, ())>)
    ensures
        unkeyed(a + b) == unkeyed(a) + unkeyed(b),
{
    assert(unkeyed(a + b) =~= unkeyed(a) + unkeyed(b));
}

proof fn lemma_unkeyed_keyed(s: Seq<Seq<char>>)
    ensures
        unkeyed(keyed(s)) == s,
{
    assert(unkeyed(keyed(s)) =~= s);
}

/// Whether a list of strings holds `x`.
fn contains_string(v: &Vec<String>, x: &String) -> (res: bool)
    ensures
        res == strs(v@).contains(x@),
{
    let n = v.len();
    let mut i: usize = 0;
    while i < n
        invariant
            n == v@.len(),
            0 <= i <= n,
            forall|k: int| 0 <= k < i ==> v@[k]@ != x@,
        decreases n - i,
    {
        if v[i] == *x {
            proof {
                assert(strs(v@)[i as int] == x@);
            }
            return true;
        }
        i = i + 1;
    }
    proof {
        if strs(v@).contains(x@) {
            let k = choose|k: int| 0 <= k < strs(v@).len() && strs(v@)[k] == x@;
            assert(v@[k]@ == x@);
        }
    }
    false
}

/// The views of a list of strings.
pub open spec fn strs(v: Seq<String>) -> Seq<Seq<char>> {
    v.map_values(|s: String| s@)
}

/// Refreshes the list of local addresses with the addresses registered on
/// the homeserver: those that are still registered stay in their place, the
/// others are removed, and the newly registered ones are appended in the
/// order in which they came, each address once.
pub fn update_local_addresses(current: &Vec<String>, registered: &Vec<String>) -> (res: Vec<String>)
    ensures
        strs(res@) == spec_refreshed_local_addresses(strs(current@), strs(registered@)),
{
    // The registered addresses, each once.
    let mut pending: Vec<String> = Vec::new();
    let mut j: usize = 0;
    while j < registered.len()
        invariant
            0 <= j <= registered@.len(),
            strs(pending@) == dedup(strs(registered@).take(j as int)),
        decreases registered@.len() - j,
    {
        let ghost before = pending@;
        proof {
            assert(strs(registered@).take(j as int + 1).drop_last() =~= strs(registered@).take(j as int));
            assert(strs(registered@).take(j as int + 1).last() == registered@[j as int]@);
        }
        if !contains_string(&pending, &registered[j]) {
            pending.push(registered[j].clone());
            proof {
                assert(strs(pending@) =~= strs(before).push(registered@[j as int]@));
            }
        }
        j = j + 1;
    }
    proof {
        assert(strs(registered@).take(registered@.len() as int) =~= strs(registered@));
    }
    let ghost cur = strs(current@);
    let ghost target = reconcile(cur, keyed(strs(pending@)));
    let mut res: Vec<String> = Vec::new();
    let n = current.len();
    proof {
        assert(cur.subrange(0, n as int) =~= cur);
        assert(keyed(strs(res@)) + target =~= target);
    }
    let mut i: usize = 0;
    while i < n
        invariant
            n == current@.len(),
            cur == strs(current@),
            0 <= i <= n,
            keyed(strs(res@)) + reconcile(cur.subrange(i as int, n as int), keyed(strs(pending@))) == target,
        decreases n - i,
    {
        let ghost before = keyed(strs(pending@));
        let ghost tail = cur.subrange(i as int, n as int);
        proof {
            assert(tail.drop_first() =~= cur.subrange(i as int + 1, n as int));
            assert(tail[0] == current@[i as int]@);
        }
        let address = &current[i];
        let mut p: usize = 0;
        let m = pending.len();
        while p < m
            invariant_except_break
                m == pending@.len(),
                0 <= p <= m,
                forall|q: int| 0 <= q < p ==> pending@[q]@ != address@,
            ensures
                m == pending@.len(),
                0 <= p <= m,
                forall|q: int| 0 <= q < p ==> pending@[q]@ != address@,
                p < m ==> pending@[p as int]@ == address@,
            decreases m - p,
        {
            if pending[p] == *address {
                break;
            }
            p = p + 1;
        }
        if p < m {
            proof {
                assert forall|q: int| 0 <= q < p implies before[q].0 != address@ by {
                    assert(before[q] == (pending@[q]@, ()));
                }
                assert(before[p as int] == (address@, ()));
                lemma_find_first_index(before, address@, p as int);
                lemma_keyed_remove(strs(pending@), p as int);
                assert(strs(pending@.remove(p as int)) =~= strs(pending@).remove(p as int));
            }
            let _ = pending.remove(p);
            let ghost old_res = strs(res@);
            res.push(address.clone());
            proof {
                assert(keyed(strs(res@)) =~= keyed(old_res) + seq![(address@, ())]);
                assert(before[p as int].1 == ());
                assert(reconcile(tail, before) == seq![(address@, before[p as int].1)]
                    + reconcile(cur.subrange(i as int + 1, n as int), before.remove(p as int)));
                assert(keyed(strs(res@)) + reconcile(cur.subrange(i as int + 1, n as int), keyed(strs(pending@)))
                    =~= keyed(old_res) + reconcile(tail, before));
            }
        } else {
            proof {
                assert forall|q: int| 0 <= q < before.len() implies before[q].0 != address@ by {
                    assert(before[q] == (pending@[q]@, ()));
                }
                lemma_find_first_none(before, address@);
            }
        }
        i = i + 1;
    }
    let ghost kept = strs(res@);
    let ghost rest = strs(pending@);
    let m = pending.len();
    proof {
        assert(cur.subrange(n as int, n as int) =~= Seq::<Seq<char>>::empty());
        assert(keyed(kept) + keyed(rest) == target);
        assert(rest.take(0) =~= Seq::<Seq<char>>::empty());
        assert(kept + rest.take(0) =~= kept);
    }
    let mut q: usize = 0;
    while q < m
        invariant
            m == rest.len(),
            rest == strs(pending@),
            0 <= q <= m,
            strs(res@) == kept + rest.take(q as int),
        decreases m - q,
    {
        let ghost old_res = res@;
        let next = pending[q].clone();
        res.push(next);
        proof {
            assert(strs(res@) =~= strs(old_res).push(next@));
            assert(rest.take(q as int + 1) =~= rest.take(q as int).push(rest[q as int]));
            assert(strs(res@) =~= kept + rest.take(q as int + 1));
        }
        q = q + 1;
    }
    proof {
        assert(rest.take(m as int) =~= rest);
        lemma_unkeyed_concat(keyed(kept), keyed(rest));
        lemma_unkeyed_keyed(kept);
        lemma_unkeyed_keyed(rest);
    }
    res
}

proof fn lemma_count_unkeyed(s: Seq<(Seq<char>, ())>, x: Seq<char>)
    ensures
        unkeyed(s).to_multiset().count(x) == s.to_multiset().count((x, ())),
    decreases s.len(),
{
    if s.len() == 0 {
        assert(unkeyed(s) =~= Seq::<Seq<char>>::empty());
        assert(!unkeyed(s).contains(x));
        assert(!s.contains((x, ())));
    } else {
        lemma_count_unkeyed(s.drop_last(), x);
        assert(unkeyed(s) =~= unkeyed(s.drop_last()).push(s.last().0));
        assert(s =~= s.drop_last().push(s.last()));
        assert(s.last() == (s.last().0, ()));
    }
}

/// After a refresh, the local addresses are exactly the registered ones,
/// each once.
pub proof fn law_refreshed_local_addresses_are_registered(current: Seq<Seq<char>>, registered: Seq<Seq<char>>)
    ensures
        spec_refreshed_local_addresses(current, registered).to_multiset() == dedup(registered).to_multiset(),
        forall|x: Seq<char>| #[trigger] spec_refreshed_local_addresses(current, registered).contains(x)
            <==> registered.contains(x),
{
    let pending = keyed(dedup(registered));
    let r = reconcile(current, pending);
    law_reconcile_is_permutation(current, pending);
    lemma_unkeyed_keyed(dedup(registered));
    lemma_dedup(registered);
    assert forall|x: Seq<char>| unkeyed(r).to_multiset().count(x) == dedup(registered).to_multiset().count(x) by {
        lemma_count_unkeyed(r, x);
        lemma_count_unkeyed(pending, x);
    }
    assert(unkeyed(r).to_multiset() =~= dedup(registered).to_multiset());
    assert forall|x: Seq<char>| #[trigger] unkeyed(r).contains(x) <==> registered.contains(x) by {
        assert(unkeyed(r).to_multiset().count(x) == dedup(registered).to_multiset().count(x));
    }
}

/// Whether an address can be added to the public addresses: it is not empty,
/// is a valid room alias, and is not public already.
pub open spec fn spec_can_add_public_address(text: Seq<char>, public: Seq<PublicAddress>) -> bool {
    text.len() > 0 && ruma_room_alias_valid(text) && !aliases_of(public).contains(text)
}

/// Whether the address typed in the row to add a public address can be
/// added.
pub fn can_add_public_address(text: &str, public: &Vec<PublicAddress>) -> (res: bool)
    ensures
        res == spec_can_add_public_address(text@, public@),
{
    if text.unicode_len() == 0 {
        return false;
    }
    if !is_valid_room_alias(text) {
        return false;
    }
    let n = public.len();
    let mut i: usize = 0;
    while i < n
        invariant
            n == public@.len(),
            0 <= i <= n,
            forall|k: int| 0 <= k < i ==> public@[k].alias@ != text@,
        decreases n - i,
    {
        if str_equal(public[i].alias.as_str(), text) {
            proof {
                assert(aliases_of(public@)[i as int] == text@);
            }
            return false;
        }
        i = i + 1;
    }
    proof {
        if aliases_of(public@).contains(text@) {
            let k = choose|k: int| 0 <= k < aliases_of(public@).len() && aliases_of(public@)[k] == text@;
            assert(public@[k].alias@ == text@);
        }
    }
    true
}

/// The suffix of the local addresses on a homeserver: `:` and its name.
pub fn local_address_suffix(server_name: &str) -> (res: String)
    ensures
        res@ == seq![':'] + server_name@,
{
    let mut res = String::new();
    push_char(&mut res, ':');
    push_str(&mut res, server_name);
    proof {
        assert(Seq::<char>::empty().push(':') =~= seq![':']);
    }
    res
}

/// The full local address for a localpart and the suffix of the homeserver,
/// or `None` when the localpart is empty.
pub open spec fn spec_new_local_address(localpart: Seq<char>, suffix: Seq<char>) -> Option<Seq<char>> {
    if localpart.len() == 0 {
        None
    } else {
        Some(seq!['#'] + localpart + suffix)
    }
}

/// The full local address typed in the row to register one: `#`, the
/// localpart and the suffix of the homeserver; `None` when the localpart is
/// empty.
pub fn new_local_address(localpart: &str, suffix: &str) -> (res: Option<String>)
    ensures
        match res {
            Some(a) => spec_new_local_address(localpart@, suffix@) == Some(a@),
            None => spec_new_local_address(localpart@, suffix@) is None,
        },
{
    if localpart.unicode_len() == 0 {
        return None;
    }
    let mut address = String::new();
    push_char(&mut address, '#');
    push_str(&mut address, localpart);
    push_str(&mut address, suffix);
    proof {
        assert(Seq::<char>::empty().push('#') =~= seq!['#']);
    }
    Some(address)
}

/// Whether the local address typed in the row to register one can be
/// registered: it is not empty, is a valid room alias, and is not among the
/// local addresses already (no address is registered twice).
pub open spec fn spec_can_register_local_address(
    localpart: Seq<char>,
    suffix: Seq<char>,
    local: Seq<Seq<char>>,
) -> bool {
    match spec_new_local_address(localpart, suffix) {
        Some(a) => ruma_room_alias_valid(a) && !local.contains(a),
        None => false,
    }
}

/// Whether the local address typed in the row to register one can be
/// registered, given the local addresses of the room.
pub fn can_register_local_address(localpart: &str, suffix: &str, local: &Vec<String>) -> (res: bool)
    ensures
        res == spec_can_register_local_address(localpart@, suffix@, strs(local@)),
{
    match new_local_address(localpart, suffix) {
        Some(address) => is_valid_room_alias(address.as_str()) && !contains_string(local, &address),
        None => false,
    }
}

/// The local addresses that are not public yet, in order: the candidates
/// for completion in the row to add a public address.
pub open spec fn spec_new_addresses(local: Seq<Seq<char>>, public: Seq<PublicAddress>) -> Seq<Seq<char>> {
    local.filter(not_public(public))
}

/// Whether an address is not among the public ones.
pub open spec fn not_public(public: Seq<PublicAddress>) -> spec_fn(Seq<char>) -> bool {
    |a: Seq<char>| !aliases_of(public).contains(a)
}

/// The local addresses that are not public yet, in order.
pub fn new_addresses(local: &Vec<String>, public: &Vec<PublicAddress>) -> (res: Vec<String>)
    ensures
        strs(res@) == spec_new_addresses(strs(local@), public@),
{
    let mut res: Vec<String> = Vec::new();
    let n = local.len();
    let mut i: usize = 0;
    while i < n
        invariant
            n == local@.len(),
            0 <= i <= n,
            strs(res@) == spec_new_addresses(strs(local@).take(i as int), public@),
        decreases n - i,
    {
        let ghost before = res@;
        let candidate = &local[i];
        let m = public.len();
        let mut k: usize = 0;
        let mut is_public = false;
        while k < m
            invariant
                m == public@.len(),
                0 <= k <= m,
                is_public == (exists|q: int| 0 <= q < k && #[trigger] public@[q].alias@ == candidate@),
            decreases m - k,
        {
            if public[k].alias == *candidate {
                is_public = true;
            }
            k = k + 1;
        }
        proof {
            if is_public {
                let q = choose|q: int| 0 <= q < m && #[trigger] public@[q].alias@ == candidate@;
                assert(aliases_of(public@)[q] == candidate@);
            }
            if aliases_of(public@).contains(candidate@) {
                let q = choose|q: int| 0 <= q < aliases_of(public@).len() && aliases_of(public@)[q] == candidate@;
                assert(public@[q].alias@ == candidate@);
            }
            assert(strs(local@).take(i as int + 1) =~= strs(local@).take(i as int).push(candidate@));
            strs(local@).take(i as int).lemma_filter_push(candidate@, not_public(public@));
        }
        if !is_public {
            res.push(candidate.clone());
            proof {
                assert(strs(res@) =~= strs(before).push(candidate@));
            }
        }
        i = i + 1;
    }
    proof {
        assert(strs(local@).take(n as int) =~= strs(local@));
    }
    res
}

/// What follows the title of a row of a public address: the tag of the main
/// address, or a button to make it the main address.
#[derive(Clone, Copy, Debug, PartialEq, Eq, Structural)]
pub enum PublicRowSuffix {
    Nothing,
    MainTag,
    SetMainButton,
}

/// The suffix of a row of a public address once it is updated for whether
/// the address is the main one; a suffix of the right kind is kept.
pub fn update_public_row_is_main(current: PublicRowSuffix, is_main: bool) -> (res: PublicRowSuffix)
    ensures
        is_main ==> res == PublicRowSuffix::MainTag,
        !is_main ==> res == PublicRowSuffix::SetMainButton,
{
    if is_main && current != PublicRowSuffix::MainTag {
        PublicRowSuffix::MainTag
    } else if !is_main && current != PublicRowSuffix::SetMainButton {
        PublicRowSuffix::SetMainButton
    } else {
        current
    }
}

/// Which alias of the room a removal takes away.
#[derive(Clone, Copy, Debug, PartialEq, Eq, Structural)]
pub enum AliasRemoval {
    /// The main (canonical) alias.
    Canonical,
    /// An alternative alias.
    Alternative,
}

/// What removing the address of a public row takes away: the canonical
/// alias when the row is the main one, an alternative alias otherwise;
/// `None` when the title is not a valid alias.
pub fn remove_public_address(title: &str, row_is_main: bool) -> (res: Option<AliasRemoval>)
    ensures
        res is Some <==> ruma_room_alias_valid(title@),
        res == Some(AliasRemoval::Canonical) <==> ruma_room_alias_valid(title@) && row_is_main,
{
    if !is_valid_room_alias(title) {
        return None;
    }
    if row_is_main {
        Some(AliasRemoval::Canonical)
    } else {
        Some(AliasRemoval::Alternative)
    }
}

/// Whether the address of a public row can be made the main one: the row
/// offers the button to do so, and its title is a valid alias.
pub fn set_main_public_address(title: &str, suffix: PublicRowSuffix) -> (res: bool)
    ensures
        res == (suffix is SetMainButton && ruma_room_alias_valid(title@)),
{
    if suffix != PublicRowSuffix::SetMainButton {
        return false;
    }
    is_valid_room_alias(title)
}

/// Why adding an alternative alias failed.
#[derive(Clone, Copy, Debug, PartialEq, Eq, Structural)]
pub enum AddAltAliasError {
    /// The alias is not registered as a local address.
    NotRegistered,
    /// The alias points to another room.
    InvalidRoomId,
    /// Another error.
    Other,
}

/// Why registering a local alias failed.
#[derive(Clone, Copy, Debug, PartialEq, Eq, Structural)]
pub enum RegisterLocalAliasError {
    /// The alias is registered already.
    AlreadyInUse,
    /// Another error.
    Other,
}

/// The error that the addresses page explains below a row.
#[derive(Clone, Copy, Debug, PartialEq, Eq, Structural)]
pub enum AddressError {
    /// The address is not registered as a local address.
    NotRegistered,
    /// The address does not belong to this room.
    OtherRoom,
    /// The address is already registered.
    AlreadyRegistered,
}

/// The explanation shown when adding a public address failed, if any.
pub fn add_public_address_error(error: AddAltAliasError) -> (res: Option<AddressError>)
    ensures
        res == (match error {
            AddAltAliasError::NotRegistered => Some(AddressError::NotRegistered),
            AddAltAliasError::InvalidRoomId => Some(AddressError::OtherRoom),
            AddAltAliasError::Other => None,
        }),
{
    match error {
        AddAltAliasError::NotRegistered => Some(AddressError::NotRegistered),
        AddAltAliasError::InvalidRoomId => Some(AddressError::OtherRoom),
        AddAltAliasError::Other => None,
    }
}

/// The explanation shown when registering a local address failed, if any.
pub fn register_local_address_error(error: RegisterLocalAliasError) -> (res: Option<AddressError>)
    ensures
        res == (match error {
            RegisterLocalAliasError::AlreadyInUse => Some(AddressError::AlreadyRegistered),
            RegisterLocalAliasError::Other => None,
        }),
{
    match error {
        RegisterLocalAliasError::AlreadyInUse => Some(AddressError::AlreadyRegistered),
        RegisterLocalAliasError::Other => None,
    }
}

} // verus!
