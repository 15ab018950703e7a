//! The unique-name search: candidate names are a fixed prefix followed by a
//! decimal counter, probed from zero upward; the first candidate absent from
//! the existing field names is selected. The search is deterministic and is
//! guaranteed to find a free name among the first `n + 1` candidates, `n`
//! being the number of existing names.

use vstd::prelude::*;
use vstd::seq_lib::seq_to_set_is_finite;
use vstd::set_lib::lemma_len_subset;
use vstd::string::StringExecFns;

verus! {

/// The character of one decimal digit.
pub open spec fn digit_char(d: nat) -> char {
    if d == 0 {
        '0'
    } else if d == 1 {
        '1'
    } else if d == 2 {
        '2'
    } else if d == 3 {
        '3'
    } else if d == 4 {
        '4'
    } else if d == 5 {
        '5'
    } else if d == 6 {
        '6'
    } else if d == 7 {
        '7'
    } else if d == 8 {
        '8'
    } else {
        '9'
    }
}

/// The decimal rendering of `n`, without a sign and without leading zeros
/// (except for `n == 0`, rendered as `0`).
pub open spec fn dec_rep(n: nat) -> Seq<char>
    decreases n,
{
    if n < 10 {
        seq![digit_char(n)]
    } else {
        dec_rep(n / 10).push(digit_char(n % 10))
    }
}

/// A decimal rendering is never empty, and has at least two characters for
/// `n >= 10`.
pub proof fn lemma_dec_rep_len(n: nat)
    ensures
        dec_rep(n).len() >= 1,
        n >= 10 ==> dec_rep(n).len() >= 2,
    decreases n,
{
    if n >= 10 {
        lemma_dec_rep_len(n / 10);
    }
}

/// Distinct counters render to distinct decimal texts.
pub proof fn lemma_dec_rep_injective(a: nat, b: nat)
    requires
        dec_rep(a) == dec_rep(b),
    ensures
        a == b,
    decreases a + b,
{
    if a < 10 && b < 10 {
        assert(dec_rep(a) == seq![digit_char(a)]);
        assert(dec_rep(b) == seq![digit_char(b)]);
        assert(seq![digit_char(a)][0] == digit_char(a));
        assert(seq![digit_char(b)][0] == digit_char(b));
        assert(digit_char(a) == digit_char(b));
    } else if a < 10 && b >= 10 {
        lemma_dec_rep_len(b / 10);
        assert(dec_rep(b).len() >= 2);
    } else if a >= 10 && b < 10 {
        lemma_dec_rep_len(a / 10);
        assert(dec_rep(a).len() >= 2);
    } else {
        let qa = a / 10;
        let qb = b / 10;
        assert(dec_rep(a).last() == digit_char(a % 10));
        assert(dec_rep(b).last() == digit_char(b % 10));
        assert(a % 10 == b % 10);
        assert(dec_rep(a).drop_last() =~= dec_rep(qa));
        assert(dec_rep(b).drop_last() =~= dec_rep(qb));
        lemma_dec_rep_injective(qa, qb);
        assert(a == qa * 10 + a % 10);
        assert(b == qb * 10 + b % 10);
    }
}

/// The fixed prefix of every candidate name.
pub open spec fn name_prefix() -> Seq<char> {
    "_json"@
}

/// The candidate name with counter `k`.
pub open spec fn candidate_name(k: nat) -> Seq<char> {
    name_prefix() + dec_rep(k)
}

/// Distinct counters give distinct candidate names.
pub proof fn lemma_candidate_injective(k1: nat, k2: nat)
    requires
        candidate_name(k1) == candidate_name(k2),
    ensures
        k1 == k2,
{
    let p = name_prefix();
    let d1 = dec_rep(k1);
    let d2 = dec_rep(k2);
    assert(candidate_name(k1) == p + d1);
    assert(candidate_name(k2) == p + d2);
    assert((p + d1).len() == p.len() + d1.len());
    assert((p + d2).len() == p.len() + d2.len());
    assert(d1.len() == d2.len());
    assert forall|i: int| 0 <= i < d1.len() implies d1[i] == d2[i] by {
        assert((p + d1)[p.len() + i] == d1[i]);
        assert((p + d2)[p.len() + i] == d2[i]);
    }
    assert(d1 =~= d2);
    lemma_dec_rep_injective(k1, k2);
}

/// Every candidate below `k` occurs among the existing names.
pub open spec fn prefix_taken(names: Seq<Seq<char>>, k: nat) -> bool {
    forall|j: nat| j < k ==> names.contains(#[trigger] candidate_name(j))
}

/// The search selects counter `k`: its candidate is free and every earlier
/// candidate is taken (lowest counter wins).
pub open spec fn selects(names: Seq<Seq<char>>, k: nat) -> bool {
    &&& !names.contains(candidate_name(k))
    &&& prefix_taken(names, k)
}

/// The counter the search selects (meaningful because a selected counter
/// always exists and is unique).
pub open spec fn least_free(names: Seq<Seq<char>>) -> nat {
    choose|k: nat| selects(names, k)
}

/// The name the search selects for a given set of existing names.
pub open spec fn selected_name(names: Seq<Seq<char>>) -> Seq<char> {
    candidate_name(least_free(names))
}

/// At most one counter can be selected.
pub proof fn lemma_selects_unique(names: Seq<Seq<char>>, k1: nat, k2: nat)
    requires
        selects(names, k1),
        selects(names, k2),
    ensures
        k1 == k2,
{
    if k1 < k2 {
        assert(names.contains(candidate_name(k1)));
    }
    if k2 < k1 {
        assert(names.contains(candidate_name(k2)));
    }
}

/// Among the candidates with counters `0 ..= names.len()` at least one is
/// free: only `names.len()` names are taken, and candidates are pairwise
/// distinct. This is the guarantee that the search terminates, so that a
/// name-collision failure can never occur.
pub proof fn lemma_free_candidate_exists(names: Seq<Seq<char>>)
    ensures
        exists|k: nat| k <= names.len() && !names.contains(candidate_name(k)),
{
    let n = names.len();
    if !(exists|k: nat| k <= n && !names.contains(candidate_name(k))) {
        assert(forall|k: nat| k <= n ==> names.contains(#[trigger] candidate_name(k)));
        let cands = Seq::new(n + 1, |i: int| candidate_name(i as nat));
        assert forall|i: int, j: int|
            0 <= i < cands.len() && 0 <= j < cands.len() && i != j implies cands[i]
            != cands[j] by {
            if cands[i] == cands[j] {
                lemma_candidate_injective(i as nat, j as nat);
            }
        }
        assert(cands.no_duplicates());
        cands.unique_seq_to_set();
        assert(cands.to_set().len() == n + 1);
        assert forall|s: Seq<char>| cands.to_set().contains(s) implies names.to_set().contains(
            s,
        ) by {
            let i = choose|i: int| 0 <= i < cands.len() && cands[i] == s;
            assert(s == candidate_name(i as nat));
            assert(names.contains(s));
        }
        assert(cands.to_set().subset_of(names.to_set()));
        names.lemma_cardinality_of_set();
        seq_to_set_is_finite(names);
        lemma_len_subset(cands.to_set(), names.to_set());
        assert(n + 1 <= n);
    }
}

/// Below any free candidate a selected (lowest free) counter exists.
proof fn lemma_selects_below(names: Seq<Seq<char>>, w: nat)
    requires
        !names.contains(candidate_name(w)),
    ensures
        exists|k: nat| selects(names, k),
    decreases w,
{
    if prefix_taken(names, w) {
        assert(selects(names, w));
    } else {
        let j = choose|j: nat| j < w && !names.contains(#[trigger] candidate_name(j));
        lemma_selects_below(names, j);
    }
}

/// The search always selects some counter: a free candidate exists, and so
/// does a lowest free one.
pub proof fn lemma_selects_exists(names: Seq<Seq<char>>)
    ensures
        exists|k: nat| selects(names, k),
        selects(names, least_free(names)),
{
    lemma_free_candidate_exists(names);
    let w = choose|k: nat| k <= names.len() && !names.contains(candidate_name(k));
    lemma_selects_below(names, w);
}

/// Law: the unique-name search is deterministic — on one set of existing
/// names, any two selected names are the same name.
pub proof fn lemma_selection_deterministic(
    names: Seq<Seq<char>>,
    s1: Seq<char>,
    s2: Seq<char>,
    k1: nat,
    k2: nat,
)
    requires
        selects(names, k1),
        s1 == candidate_name(k1),
        selects(names, k2),
        s2 == candidate_name(k2),
    ensures
        s1 == s2,
{
    lemma_selects_unique(names, k1, k2);
}

/// Law: when the names `_json0` through `_json{k-1}` are all taken and
/// `_json{k}` is not, the search selects exactly `_json{k}`.
pub proof fn lemma_selects_next_counter(names: Seq<Seq<char>>, k: nat)
    requires
        forall|j: nat| j < k ==> names.contains(#[trigger] candidate_name(j)),
        !names.contains(candidate_name(k)),
    ensures
        least_free(names) == k,
        selected_name(names) == candidate_name(k),
{
    assert(selects(names, k));
    assert(selects(names, least_free(names)));
    lemma_selects_unique(names, k, least_free(names));
}

/// The text of one decimal digit.
fn digit_str(d: u64) -> (r: &'static str)
    requires
        d < 10,
    ensures
        r@ == seq![digit_char(d as nat)],
{
    let r: &'static str = if d == 0 {
        "0"
    } else if d == 1 {
        "1"
    } else if d == 2 {
        "2"
    } else if d == 3 {
        "3"
    } else if d == 4 {
        "4"
    } else if d == 5 {
        "5"
    } else if d == 6 {
        "6"
    } else if d == 7 {
        "7"
    } else if d == 8 {
        "8"
    } else {
        "9"
    };
    proof {
        reveal_strlit("0");
        reveal_strlit("1");
        reveal_strlit("2");
        reveal_strlit("3");
        reveal_strlit("4");
        reveal_strlit("5");
        reveal_strlit("6");
        reveal_strlit("7");
        reveal_strlit("8");
        reveal_strlit("9");
        assert(r@ =~= seq![digit_char(d as nat)]);
    }
    r
}

/// The decimal rendering of a counter.
pub fn to_decimal(n: u64) -> (r: String)
    ensures
        r@ == dec_rep(n as nat),
    decreases n,
{
    if n < 10 {
        digit_str(n).to_owned()
    } else {
        let mut s = to_decimal(n / 10);
        s.append(digit_str(n % 10));
        proof {
            assert(s@ =~= dec_rep(n as nat));
        }
        s
    }
}

/// The candidate name with counter `k`, as text.
pub fn candidate_string(k: u64) -> (r: String)
    ensures
        r@ == candidate_name(k as nat),
{
    let mut s = String::from_str("_json");
    let digits = to_decimal(k);
    s.append(digits.as_str());
    proof {
        assert(s@ =~= candidate_name(k as nat));
    }
    s
}

/// Whether `target` occurs among `names`.
fn contains_name(names: &Vec<String>, target: &String) -> (b: bool)
    ensures
        b == names.deep_view().contains(target@),
{
    let ghost nm = names.deep_view();
    let mut i: usize = 0;
    while i < names.len()
        invariant
            0 <= i <= names.len(),
            nm == names.deep_view(),
            nm.len() == names.len(),
            forall|j: int| 0 <= j < i ==> nm[j] != target@,
        decreases names.len() - i,
    {
        if names[i].eq(target) {
            proof {
                assert(nm[i as int] == target@);
            }
            return true;
        }
        i += 1;
    }
    false
}

/// The unique-name search: selects the candidate with the lowest counter
/// whose name is absent from `names`.
pub fn unique_field_name(names: &Vec<String>) -> (r: String)
    ensures
        selects(names.deep_view(), least_free(names.deep_view())),
        r@ == selected_name(names.deep_view()),
{
    let ghost nm = names.deep_view();
    let names_len: usize = names.len();
    proof {
        lemma_free_candidate_exists(nm);
        assert(nm.len() == names_len);
    }
    let ghost bound = choose|k: nat| k <= nm.len() && !nm.contains(candidate_name(k));
    let mut k: u64 = 0;
    loop
        invariant
            nm == names.deep_view(),
            prefix_taken(nm, k as nat),
            bound <= nm.len(),
            !nm.contains(candidate_name(bound)),
            k as nat <= bound,
            nm.len() <= usize::MAX,
        decreases bound - k as nat,
    {
        let cand = candidate_string(k);
        if !contains_name(names, &cand) {
            proof {
                assert(selects(nm, k as nat));
                assert(selects(nm, least_free(nm)));
                lemma_selects_unique(nm, k as nat, least_free(nm));
            }
            return cand;
        }
        proof {
            assert(nm.contains(candidate_name(k as nat)));
            assert(k as nat != bound);
            assert forall|j: nat| j < k as nat + 1 implies nm.contains(
                #[trigger] candidate_name(j),
            ) by {
                if j < k as nat {
                    assert(nm.contains(candidate_name(j)));
                }
            }
        }
        k += 1;
    }
}

} // verus!
