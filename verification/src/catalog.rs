//! The local catalogue: which pets ship with the application, in which order
//! installed pets are listed, which may be deleted, and where a pet's files go.
use vstd::prelude::*;

use crate::paths::{is_path_join, join_path};
use crate::pet::LocalPetInfo;
use crate::text::{
    chars_lt, chars_of, is_valid_pet_id, lemma_seq_lt_irreflexive, lemma_seq_lt_total,
    lemma_seq_lt_transitive, owned, pet_id_is_valid, seq_lt, text_eq,
};

verus! {

/// Ids of the pets shipped with the application, in display order.
pub const BUILTIN_PET_IDS: [&'static str; 4] = ["ice-tea-hooper", "trump", "jige-kunkun", "fat-guga"];

/// The number of pets shipped with the application; also the rank of every
/// other pet.
pub const BUILTIN_PET_COUNT: usize = 4;

/// The ids of the pets shipped with the application, in display order.
pub open spec fn builtin_ids() -> Seq<Seq<char>> {
    seq!["ice-tea-hooper"@, "trump"@, "jige-kunkun"@, "fat-guga"@]
}

/// The position of `id` among the shipped pets, or `BUILTIN_PET_COUNT` for any other id.
pub open spec fn builtin_rank(id: Seq<char>) -> int {
    if id == builtin_ids()[0] {
        0
    } else if id == builtin_ids()[1] {
        1
    } else if id == builtin_ids()[2] {
        2
    } else if id == builtin_ids()[3] {
        3
    } else {
        BUILTIN_PET_COUNT as int
    }
}

/// `id` names a pet shipped with the application.
pub open spec fn is_builtin(id: Seq<char>) -> bool {
    builtin_ids().contains(id)
}

proof fn lemma_builtin_literals()
    ensures
        BUILTIN_PET_IDS@.len() == 4,
        forall|k: int| 0 <= k < 4 ==> #[trigger] BUILTIN_PET_IDS@[k]@ == builtin_ids()[k],
{
    reveal_strlit("ice-tea-hooper");
    reveal_strlit("trump");
    reveal_strlit("jige-kunkun");
    reveal_strlit("fat-guga");
    assert(BUILTIN_PET_IDS@[0]@ == builtin_ids()[0]);
    assert(BUILTIN_PET_IDS@[1]@ == builtin_ids()[1]);
    assert(BUILTIN_PET_IDS@[2]@ == builtin_ids()[2]);
    assert(BUILTIN_PET_IDS@[3]@ == builtin_ids()[3]);
}

proof fn lemma_builtin_rank(id: Seq<char>)
    ensures
        0 <= builtin_rank(id) <= BUILTIN_PET_COUNT,
        builtin_rank(id) < BUILTIN_PET_COUNT <==> is_builtin(id),
        builtin_rank(id) < BUILTIN_PET_COUNT ==> builtin_ids()[builtin_rank(id)] == id,
{
    if is_builtin(id) {
        let k = choose|k: int| 0 <= k < builtin_ids().len() && builtin_ids()[k] == id;
        assert(k == 0 || k == 1 || k == 2 || k == 3);
    }
    if builtin_rank(id) < BUILTIN_PET_COUNT {
        assert(builtin_ids()[builtin_rank(id)] == id);
    }
}

/// The position of `id` among the shipped pets, or `BUILTIN_PET_COUNT`.
pub fn builtin_rank_of(id: &str) -> (r: usize)
    ensures
        r == builtin_rank(id@),
        r <= BUILTIN_PET_COUNT,
{
    proof {
        lemma_builtin_literals();
    }
    let ids = BUILTIN_PET_IDS;
    let mut k: usize = 0;
    while k < BUILTIN_PET_COUNT
        invariant
            k <= BUILTIN_PET_COUNT,
            ids@ == BUILTIN_PET_IDS@,
            forall|j: int| 0 <= j < k ==> builtin_ids()[j] != id@,
        decreases BUILTIN_PET_COUNT - k,
    {
        if text_eq(ids[k], id) {
            return k;
        }
        k = k + 1;
    }
    BUILTIN_PET_COUNT
}

/// Whether `id` names a pet shipped with the application.
pub fn is_builtin_pet(id: &str) -> (r: bool)
    ensures
        r == is_builtin(id@),
{
    proof {
        lemma_builtin_rank(id@);
    }
    builtin_rank_of(id) < BUILTIN_PET_COUNT
}

// ---------------------------------------------------------------------------
// Listing order
// ---------------------------------------------------------------------------

/// Order of keys (rank among the shipped pets, id): shipped pets first in
/// their own order, then every other pet by id.
pub open spec fn key_before(ra: int, a: Seq<char>, rb: int, b: Seq<char>) -> bool {
    ra < rb || (ra == rb && ra == BUILTIN_PET_COUNT && seq_lt(a, b))
}

/// `a` is listed before `b`, whatever their positions in the input.
pub open spec fn pet_before(a: LocalPetInfo, b: LocalPetInfo) -> bool {
    key_before(builtin_rank(a.id@), a.id@, builtin_rank(b.id@), b.id@)
}

proof fn lemma_key_asymmetric(ra: int, a: Seq<char>, rb: int, b: Seq<char>)
    requires
        key_before(ra, a, rb, b),
    ensures
        !key_before(rb, b, ra, a),
{
    if ra == rb && seq_lt(a, b) && seq_lt(b, a) {
        lemma_seq_lt_transitive(a, b, a);
        lemma_seq_lt_irreflexive(a);
    }
}

proof fn lemma_key_not_before_transitive(
    ra: int,
    a: Seq<char>,
    rb: int,
    b: Seq<char>,
    rc: int,
    c: Seq<char>,
)
    requires
        !key_before(ra, a, rb, b),
        !key_before(rb, b, rc, c),
    ensures
        !key_before(ra, a, rc, c),
{
    if ra == rc && ra == BUILTIN_PET_COUNT && rb == ra {
        lemma_seq_lt_total(a, b);
        lemma_seq_lt_total(b, c);
        if seq_lt(a, c) {
            if seq_lt(b, a) {
                lemma_seq_lt_transitive(b, a, c);
                if seq_lt(c, b) {
                    lemma_seq_lt_transitive(b, c, b);
                    lemma_seq_lt_irreflexive(b);
                }
            }
            if seq_lt(c, b) && b == a {
                lemma_seq_lt_transitive(a, c, a);
                lemma_seq_lt_irreflexive(a);
            }
        }
    }
}

/// `r` lists the items of `v` in the order given by `p` (`r[k]` is `v[p[k]]`),
/// and `p` visits every position of `v` once.
pub open spec fn is_arrangement(r: Seq<LocalPetInfo>, v: Seq<LocalPetInfo>, p: Seq<int>) -> bool {
    &&& r.len() == v.len()
    &&& p.len() == v.len()
    &&& forall|k: int| 0 <= k < p.len() ==> 0 <= #[trigger] p[k] < v.len()
    &&& forall|k: int, l: int| 0 <= k < l < p.len() ==> #[trigger] p[k] != #[trigger] p[l]
    &&& forall|k: int| 0 <= k < r.len() ==> #[trigger] r[k] == v[p[k]]
}

/// In `r`, each item comes before every later one, or the two tie and keep
/// the order they had in the input (`p` gives input positions).
pub open spec fn is_listing_order(r: Seq<LocalPetInfo>, p: Seq<int>) -> bool {
    forall|k: int, l: int|
        0 <= k < l < r.len() ==> pet_before(#[trigger] r[k], #[trigger] r[l]) || (!pet_before(
            r[l],
            r[k],
        ) && p[k] < p[l])
}

/// `r` is `v` in listing order: a stable sort by `pet_before`.
pub open spec fn is_listing_of(r: Seq<LocalPetInfo>, v: Seq<LocalPetInfo>) -> bool {
    exists|p: Seq<int>| is_arrangement(r, v, p) && is_listing_order(r, p)
}

fn key_before_exec(ra: usize, a: &Vec<char>, rb: usize, b: &Vec<char>) -> (r: bool)
    ensures
        r == key_before(ra as int, a@, rb as int, b@),
{
    ra < rb || (ra == rb && ra == BUILTIN_PET_COUNT && chars_lt(a, b))
}

/// Orders installed pets for display: the shipped pets first, in the order of
/// `BUILTIN_PET_IDS`, then all others by id; pets that tie keep their order.
pub fn sort_local_pets(infos: Vec<LocalPetInfo>) -> (r: Vec<LocalPetInfo>)
    ensures
        is_listing_of(r@, infos@),
{
    let ghost v = infos@;
    let n = infos.len();
    let mut rest = infos;
    let mut out: Vec<LocalPetInfo> = Vec::new();
    let mut ranks: Vec<usize> = Vec::new();
    let mut keys: Vec<Vec<char>> = Vec::new();
    let ghost mut p: Seq<int> = Seq::empty();
    let mut i: usize = 0;
    assert(rest@ == v.skip(0));
    while i < n
        invariant
            n == v.len(),
            i <= n,
            rest@ == v.skip(i as int),
            out@.len() == i,
            p.len() == i,
            ranks@.len() == i,
            keys@.len() == i,
            forall|k: int| 0 <= k < i ==> #[trigger] ranks@[k] == builtin_rank(out@[k].id@),
            forall|k: int| 0 <= k < i ==> #[trigger] keys@[k]@ == out@[k].id@,
            forall|k: int| 0 <= k < i ==> 0 <= #[trigger] p[k] < i,
            forall|k: int, l: int| 0 <= k < l < i ==> #[trigger] p[k] != #[trigger] p[l],
            forall|k: int| 0 <= k < i ==> #[trigger] out@[k] == v[p[k]],
            is_listing_order(out@, p),
        decreases n - i,
    {
        let item = rest.remove(0);
        assert(item == v[i as int]);
        assert(rest@ == v.skip(i + 1));
        let rk = builtin_rank_of(item.id.as_str());
        let ck = chars_of(item.id.as_str());
        let mut pos: usize = i;
        while pos > 0 && key_before_exec(rk, &ck, ranks[pos - 1], &keys[pos - 1])
            invariant
                pos <= i,
                i == out@.len(),
                ranks@.len() == i,
                keys@.len() == i,
                rk == builtin_rank(item.id@),
                ck@ == item.id@,
                forall|k: int| 0 <= k < i ==> #[trigger] ranks@[k] == builtin_rank(out@[k].id@),
                forall|k: int| 0 <= k < i ==> #[trigger] keys@[k]@ == out@[k].id@,
                forall|k: int| pos <= k < i ==> pet_before(item, #[trigger] out@[k]),
            decreases pos,
        {
            pos = pos - 1;
        }
        proof {
            if pos > 0 {
                assert(!pet_before(item, out@[pos - 1]));
                assert forall|k: int| 0 <= k < pos implies !pet_before(item, #[trigger] out@[k]) by {
                    if k < pos - 1 {
                        let a = out@[k];
                        let b = out@[pos - 1];
                        assert(pet_before(a, b) || !pet_before(b, a));
                        if pet_before(a, b) {
                            lemma_key_asymmetric(
                                builtin_rank(a.id@),
                                a.id@,
                                builtin_rank(b.id@),
                                b.id@,
                            );
                        }
                        lemma_key_not_before_transitive(
                            builtin_rank(item.id@),
                            item.id@,
                            builtin_rank(b.id@),
                            b.id@,
                            builtin_rank(a.id@),
                            a.id@,
                        );
                    }
                }
            }
        }
        let ghost old_out = out@;
        let ghost old_p = p;
        out.insert(pos, item);
        ranks.insert(pos, rk);
        keys.insert(pos, ck);
        proof {
            p = p.insert(pos as int, i as int);
            assert forall|k: int, l: int| 0 <= k < l < i + 1 implies pet_before(
                #[trigger] out@[k],
                #[trigger] out@[l],
            ) || (!pet_before(out@[l], out@[k]) && p[k] < p[l]) by {
                if l < pos {
                    assert(out@[k] == old_out[k] && out@[l] == old_out[l]);
                    assert(p[k] == old_p[k] && p[l] == old_p[l]);
                } else if l == pos {
                    assert(out@[k] == old_out[k]);
                    assert(!pet_before(item, old_out[k]));
                } else if k == pos {
                    assert(out@[l] == old_out[l - 1]);
                    assert(pet_before(item, old_out[l - 1]));
                } else if k < pos {
                    assert(out@[k] == old_out[k] && out@[l] == old_out[l - 1]);
                    assert(p[k] == old_p[k] && p[l] == old_p[l - 1]);
                } else {
                    assert(out@[k] == old_out[k - 1] && out@[l] == old_out[l - 1]);
                    assert(p[k] == old_p[k - 1] && p[l] == old_p[l - 1]);
                }
            }
            assert forall|k: int| 0 <= k < i + 1 implies #[trigger] out@[k] == v[p[k]] by {
                if k < pos {
                    assert(out@[k] == old_out[k]);
                } else if k > pos {
                    assert(out@[k] == old_out[k - 1]);
                }
            }
            assert forall|k: int| 0 <= k < i + 1 implies #[trigger] ranks@[k] == builtin_rank(
                out@[k].id@,
            ) by {
                if k < pos {
                    assert(out@[k] == old_out[k]);
                } else if k > pos {
                    assert(out@[k] == old_out[k - 1]);
                }
            }
            assert forall|k: int| 0 <= k < i + 1 implies #[trigger] keys@[k]@ == out@[k].id@ by {
                if k < pos {
                    assert(out@[k] == old_out[k]);
                } else if k > pos {
                    assert(out@[k] == old_out[k - 1]);
                }
            }
            assert forall|k: int, l: int| 0 <= k < l < i + 1 implies #[trigger] p[k]
                != #[trigger] p[l] by {
                if k < pos && l < pos {
                    assert(p[k] == old_p[k] && p[l] == old_p[l]);
                } else if k < pos && l > pos {
                    assert(p[k] == old_p[k] && p[l] == old_p[l - 1]);
                } else if k > pos && l > pos {
                    assert(p[k] == old_p[k - 1] && p[l] == old_p[l - 1]);
                } else if k == pos {
                    assert(p[l] == old_p[l - 1]);
                } else {
                    assert(p[k] == old_p[k]);
                }
            }
        }
        i = i + 1;
    }
    assert(is_arrangement(out@, v, p));
    out
}

/// In a listing, the shipped pets come first and in their own order, and the
/// other pets follow in order of id.
pub proof fn law_listing_puts_builtin_first(r: Seq<LocalPetInfo>, v: Seq<LocalPetInfo>)
    requires
        is_listing_of(r, v),
    ensures
        forall|k: int, l: int|
            0 <= k < l < r.len() && is_builtin(#[trigger] r[l].id@) ==> is_builtin(
                #[trigger] r[k].id@,
            ),
        forall|k: int, l: int|
            0 <= k < l < r.len() && is_builtin(r[k].id@) && is_builtin(r[l].id@) ==> builtin_rank(
                #[trigger] r[k].id@,
            ) <= builtin_rank(#[trigger] r[l].id@),
        forall|k: int, l: int|
            0 <= k < l < r.len() && !is_builtin(r[k].id@) && !is_builtin(r[l].id@) ==> !seq_lt(
                #[trigger] r[l].id@,
                #[trigger] r[k].id@,
            ),
{
    let p = choose|p: Seq<int>| is_arrangement(r, v, p) && is_listing_order(r, p);
    assert forall|k: int, l: int| 0 <= k < l < r.len() implies {
        &&& (is_builtin(r[l].id@) ==> is_builtin(r[k].id@))
        &&& (is_builtin(r[k].id@) && is_builtin(r[l].id@) ==> builtin_rank(r[k].id@)
            <= builtin_rank(r[l].id@))
        &&& (!is_builtin(r[k].id@) && !is_builtin(r[l].id@) ==> !seq_lt(r[l].id@, r[k].id@))
    } by {
        lemma_builtin_rank(r[k].id@);
        lemma_builtin_rank(r[l].id@);
        assert(pet_before(r[k], r[l]) || !pet_before(r[l], r[k]));
        if !is_builtin(r[k].id@) && !is_builtin(r[l].id@) && seq_lt(r[l].id@, r[k].id@) {
            lemma_seq_lt_transitive(r[l].id@, r[k].id@, r[l].id@);
            lemma_seq_lt_irreflexive(r[l].id@);
        }
    }
}

/// Position `i` of `v` is listed before position `j`: its pet comes first,
/// or the two tie and `i` came first.
pub open spec fn position_before(v: Seq<LocalPetInfo>, i: int, j: int) -> bool {
    pet_before(v[i], v[j]) || (!pet_before(v[j], v[i]) && i < j)
}

proof fn lemma_position_before_asymmetric(v: Seq<LocalPetInfo>, i: int, j: int)
    requires
        position_before(v, i, j),
    ensures
        !position_before(v, j, i),
{
    if pet_before(v[i], v[j]) {
        lemma_key_asymmetric(
            builtin_rank(v[i].id@),
            v[i].id@,
            builtin_rank(v[j].id@),
            v[j].id@,
        );
    }
}

/// An arrangement visits every position of the input.
proof fn lemma_arrangement_covers(r: Seq<LocalPetInfo>, v: Seq<LocalPetInfo>, p: Seq<int>, x: int)
    requires
        is_arrangement(r, v, p),
        0 <= x < v.len(),
    ensures
        p.contains(x),
{
    assert(p.no_duplicates()) by {
        assert forall|a: int, b: int| 0 <= a < p.len() && 0 <= b < p.len() && a != b implies p[a]
            != p[b] by {
            if a < b {
                assert(p[a] != p[b]);
            } else {
                assert(p[b] != p[a]);
            }
        }
    }
    p.unique_seq_to_set();
    let range = vstd::set_lib::set_int_range(0, v.len() as int);
    vstd::set_lib::lemma_int_range(0, v.len() as int);
    assert(p.to_set().subset_of(range)) by {
        assert forall|y: int| p.to_set().contains(y) implies range.contains(y) by {
            let m = choose|m: int| 0 <= m < p.len() && p[m] == y;
            assert(0 <= p[m] < v.len());
        }
    }
    vstd::seq_lib::seq_to_set_is_finite(p);
    vstd::set_lib::lemma_subset_equality(p.to_set(), range);
    assert(range.contains(x));
    assert(p.to_set().contains(x));
}

/// There is only one listing of a given list of pets: what `sort_local_pets`
/// returns is fully determined by its input.
pub proof fn law_listing_is_unique(r1: Seq<LocalPetInfo>, r2: Seq<LocalPetInfo>, v: Seq<LocalPetInfo>)
    requires
        is_listing_of(r1, v),
        is_listing_of(r2, v),
    ensures
        r1 == r2,
{
    let p1 = choose|p: Seq<int>| is_arrangement(r1, v, p) && is_listing_order(r1, p);
    let p2 = choose|p: Seq<int>| is_arrangement(r2, v, p) && is_listing_order(r2, p);
    assert forall|k: int, l: int| 0 <= k < l < p1.len() implies position_before(
        v,
        #[trigger] p1[k],
        #[trigger] p1[l],
    ) by {
        assert(r1[k] == v[p1[k]] && r1[l] == v[p1[l]]);
    }
    assert forall|k: int, l: int| 0 <= k < l < p2.len() implies position_before(
        v,
        #[trigger] p2[k],
        #[trigger] p2[l],
    ) by {
        assert(r2[k] == v[p2[k]] && r2[l] == v[p2[l]]);
    }
    assert forall|k: int| 0 <= k < p1.len() implies p1[k] == p2[k] by {
        lemma_same_positions(v, p1, p2, r1, r2, k);
    }
    assert(p1 =~= p2);
    assert forall|k: int| 0 <= k < r1.len() implies r1[k] == r2[k] by {
        assert(r1[k] == v[p1[k]] && r2[k] == v[p2[k]]);
    }
    assert(r1 =~= r2);
}

/// Two arrangements that both list `v` agree at every position.
proof fn lemma_same_positions(
    v: Seq<LocalPetInfo>,
    p1: Seq<int>,
    p2: Seq<int>,
    r1: Seq<LocalPetInfo>,
    r2: Seq<LocalPetInfo>,
    k: int,
)
    requires
        is_arrangement(r1, v, p1),
        is_arrangement(r2, v, p2),
        forall|a: int, b: int|
            0 <= a < b < p1.len() ==> position_before(v, #[trigger] p1[a], #[trigger] p1[b]),
        forall|a: int, b: int|
            0 <= a < b < p2.len() ==> position_before(v, #[trigger] p2[a], #[trigger] p2[b]),
        0 <= k < p1.len(),
    ensures
        p1[k] == p2[k],
    decreases k,
{
    if k > 0 {
        lemma_same_positions(v, p1, p2, r1, r2, k - 1);
    }
    assert forall|j: int| 0 <= j < k implies p1[j] == p2[j] by {
        if j < k {
            lemma_same_positions(v, p1, p2, r1, r2, j);
        }
    }
    if p1[k] != p2[k] {
        let a = p1[k];
        let b = p2[k];
        lemma_arrangement_covers(r2, v, p2, a);
        lemma_arrangement_covers(r1, v, p1, b);
        let m = choose|m: int| 0 <= m < p2.len() && p2[m] == a;
        let m1 = choose|m: int| 0 <= m < p1.len() && p1[m] == b;
        // `a` cannot sit before position `k` in `p2`: there `p2` agrees with `p1`,
        // and `p1` holds `a` only at `k`.
        if m < k {
            assert(p1[m] == p2[m]);
            assert(p1[m] != p1[k]);
        }
        if m1 < k {
            assert(p1[m1] == p2[m1]);
            assert(p2[m1] != p2[k]);
        }
        assert(m > k && m1 > k);
        assert(position_before(v, p1[k], p1[m1]));
        assert(position_before(v, p2[k], p2[m]));
        lemma_position_before_asymmetric(v, a, b);
    }
}

/// A listing is already in listing order: listing it again keeps it as it is.
pub proof fn law_listing_is_stable_under_relisting(r: Seq<LocalPetInfo>, v: Seq<LocalPetInfo>)
    requires
        is_listing_of(r, v),
    ensures
        is_listing_of(r, r),
        forall|r2: Seq<LocalPetInfo>| #[trigger] is_listing_of(r2, r) ==> r2 == r,
{
    let p = choose|p: Seq<int>| is_arrangement(r, v, p) && is_listing_order(r, p);
    let id = Seq::new(r.len(), |i: int| i);
    assert(is_arrangement(r, r, id));
    assert forall|k: int, l: int| 0 <= k < l < r.len() implies pet_before(
        #[trigger] r[k],
        #[trigger] r[l],
    ) || (!pet_before(r[l], r[k]) && id[k] < id[l]) by {
        assert(pet_before(r[k], r[l]) || (!pet_before(r[l], r[k]) && p[k] < p[l]));
    }
    assert(is_listing_order(r, id));
    assert forall|r2: Seq<LocalPetInfo>| #[trigger] is_listing_of(r2, r) implies r2 == r by {
        law_listing_is_unique(r2, r, r);
    }
}

// ---------------------------------------------------------------------------
// Deleting and locating pets
// ---------------------------------------------------------------------------

/// The message for an id that may not name a pet directory.
pub open spec fn invalid_id_message(pet_id: Seq<char>) -> Seq<char> {
    "非法的宠物 id: "@ + pet_id
}

/// The message for an attempt to delete a shipped pet.
pub open spec fn builtin_delete_message() -> Seq<char> {
    "内置宠物不能删除"@
}

/// The error for an id that may not name a pet directory.
pub fn invalid_id_error(pet_id: &str) -> (r: String)
    ensures
        r@ == invalid_id_message(pet_id@),
{
    let mut r = owned("非法的宠物 id: ");
    r.append(pet_id);
    proof {
        reveal_strlit("非法的宠物 id: ");
    }
    r
}

/// Checks that `pet_id` may name a directory of its own.
pub fn check_pet_id(pet_id: &str) -> (r: Result<(), String>)
    ensures
        r is Ok <==> is_valid_pet_id(pet_id@),
        r is Err ==> r->Err_0@ == invalid_id_message(pet_id@),
{
    if pet_id_is_valid(pet_id) {
        Ok(())
    } else {
        Err(invalid_id_error(pet_id))
    }
}

/// Whether the pet `pet_id` may be deleted: shipped pets never, and only ids
/// that name a directory of their own.
pub fn check_deletable(pet_id: &str) -> (r: Result<(), String>)
    ensures
        r is Ok <==> !is_builtin(pet_id@) && is_valid_pet_id(pet_id@),
        is_builtin(pet_id@) ==> r is Err && r->Err_0@ == builtin_delete_message(),
        !is_builtin(pet_id@) && !is_valid_pet_id(pet_id@) ==> r is Err && r->Err_0@
            == invalid_id_message(pet_id@),
{
    if is_builtin_pet(pet_id) {
        proof {
            reveal_strlit("内置宠物不能删除");
        }
        Err(owned("内置宠物不能删除"))
    } else {
        check_pet_id(pet_id)
    }
}

/// The cache directory `<root>/<pet_id>` for a pet, refusing ids that could
/// leave `root`.
pub fn pet_cache_dir(root: &str, pet_id: &str) -> (r: Result<String, String>)
    ensures
        r is Ok <==> is_valid_pet_id(pet_id@),
        r is Ok ==> is_path_join(r->Ok_0@, root@, pet_id@),
        r is Err ==> r->Err_0@ == invalid_id_message(pet_id@),
{
    match check_pet_id(pet_id) {
        Ok(()) => {
            proof {
                crate::text::law_valid_pet_id_has_no_traversal(pet_id@);
            }
            Ok(join_path(root, pet_id))
        },
        Err(e) => Err(e),
    }
}

} // verus!
