//! Selection of the construction function among a construct's member
//! functions.
//!
//! A function is eligible if it carries the injection marker or, absent any
//! marked function, if its name matches the conventional name `new`. Two or
//! more marked functions are ambiguous; no marked function and no
//! conventional function means there is no injection point.

use vstd::prelude::*;

use crate::error::DiError;
use crate::model::MethodSig;

verus! {

/// How many member functions carry the injection marker.
pub open spec fn marked_count(ms: Seq<MethodSig>) -> nat
    decreases ms.len(),
{
    if ms.len() == 0 {
        0
    } else {
        marked_count(ms.drop_last()) + if ms.last().marked {
            1nat
        } else {
            0nat
        }
    }
}

/// True for a member function with the conventional name `new`.
pub open spec fn is_conventional(m: MethodSig) -> bool {
    m.name@ == "new"@
}

/// The position of the first marked member function.
pub open spec fn first_marked(ms: Seq<MethodSig>) -> int
    decreases ms.len(),
{
    if ms.len() == 0 {
        0
    } else if ms[0].marked {
        0
    } else {
        1 + first_marked(ms.subrange(1, ms.len() as int))
    }
}

/// The position of the last conventionally named member function, or -1 if
/// there is none.
pub open spec fn last_conventional(ms: Seq<MethodSig>) -> int
    decreases ms.len(),
{
    if ms.len() == 0 {
        -1
    } else if is_conventional(ms.last()) {
        ms.len() - 1
    } else {
        last_conventional(ms.drop_last())
    }
}

/// The selection rule: two or more marked functions are ambiguous; exactly
/// one marked function is selected regardless of its name; otherwise the
/// conventionally named function is selected if present.
pub open spec fn spec_select(ms: Seq<MethodSig>) -> Result<int, DiError> {
    if marked_count(ms) >= 2 {
        Err(DiError::AmbiguousInjectionPoint)
    } else if marked_count(ms) == 1 {
        Ok(first_marked(ms))
    } else if last_conventional(ms) >= 0 {
        Ok(last_conventional(ms))
    } else {
        Err(DiError::MissingInjectionPoint)
    }
}

/// The first marked position is the position of any marked function that no
/// earlier marked function precedes.
proof fn lemma_first_marked(ms: Seq<MethodSig>, k: int)
    requires
        0 <= k < ms.len(),
        ms[k].marked,
        forall|j: int| 0 <= j < k ==> !ms[j].marked,
    ensures
        first_marked(ms) == k,
    decreases k,
{
    if k == 0 {
    } else {
        let tail = ms.subrange(1, ms.len() as int);
        assert(!ms[0].marked);
        assert(tail[k - 1] == ms[k]);
        assert(forall|j: int| 0 <= j < k - 1 ==> !tail[j].marked);
        lemma_first_marked(tail, k - 1);
    }
}

/// The last conventional position is the position of any conventionally
/// named function that no later one follows.
proof fn lemma_last_conventional(ms: Seq<MethodSig>, k: int)
    requires
        0 <= k < ms.len(),
        is_conventional(ms[k]),
        forall|j: int| k < j < ms.len() ==> !is_conventional(ms[j]),
    ensures
        last_conventional(ms) == k,
    decreases ms.len(),
{
    if k == ms.len() - 1 {
    } else {
        assert(!is_conventional(ms.last()));
        let front = ms.drop_last();
        assert(front[k] == ms[k]);
        assert(forall|j: int| k < j < front.len() ==> !is_conventional(front[j]));
        lemma_last_conventional(front, k);
    }
}

/// Without a conventionally named function there is no last conventional
/// position.
proof fn lemma_no_conventional(ms: Seq<MethodSig>)
    requires
        forall|j: int| 0 <= j < ms.len() ==> !is_conventional(ms[j]),
    ensures
        last_conventional(ms) == -1,
    decreases ms.len(),
{
    if ms.len() > 0 {
        let front = ms.drop_last();
        assert(forall|j: int| 0 <= j < front.len() ==> !is_conventional(front[j]));
        lemma_no_conventional(front);
    }
}

/// A sequence with no marked function has a marked count of zero.
proof fn lemma_count_none_marked(ms: Seq<MethodSig>)
    requires
        forall|j: int| 0 <= j < ms.len() ==> !ms[j].marked,
    ensures
        marked_count(ms) == 0,
    decreases ms.len(),
{
    if ms.len() > 0 {
        let front = ms.drop_last();
        assert(forall|j: int| 0 <= j < front.len() ==> !ms[j].marked);
        lemma_count_none_marked(front);
    }
}

/// A sequence whose only marked function stands at `k` has a marked count of
/// one.
proof fn lemma_count_one_marked(ms: Seq<MethodSig>, k: int)
    requires
        0 <= k < ms.len(),
        ms[k].marked,
        forall|j: int| 0 <= j < ms.len() && j != k ==> !ms[j].marked,
    ensures
        marked_count(ms) == 1,
    decreases ms.len(),
{
    let front = ms.drop_last();
    if k == ms.len() - 1 {
        assert(forall|j: int| 0 <= j < front.len() ==> !front[j].marked);
        lemma_count_none_marked(front);
    } else {
        assert(!ms.last().marked);
        assert(front[k] == ms[k]);
        assert(forall|j: int| 0 <= j < front.len() && j != k ==> !front[j].marked);
        lemma_count_one_marked(front, k);
    }
}

/// For any construct with no marked function and a conventionally named
/// function, selection picks the last conventionally named function:
/// selection is deterministic and convention-based absent an explicit
/// marker.
pub proof fn lemma_selects_conventional(ms: Seq<MethodSig>, k: int)
    requires
        forall|j: int| 0 <= j < ms.len() ==> !ms[j].marked,
        0 <= k < ms.len(),
        is_conventional(ms[k]),
        forall|j: int| k < j < ms.len() ==> !is_conventional(ms[j]),
    ensures
        spec_select(ms) == Ok::<int, DiError>(k),
{
    lemma_count_none_marked(ms);
    lemma_last_conventional(ms, k);
}

/// For any construct with exactly one marked function, that function is
/// selected regardless of naming.
pub proof fn lemma_selects_marked(ms: Seq<MethodSig>, k: int)
    requires
        0 <= k < ms.len(),
        ms[k].marked,
        forall|j: int| 0 <= j < ms.len() && j != k ==> !ms[j].marked,
    ensures
        spec_select(ms) == Ok::<int, DiError>(k),
{
    lemma_count_one_marked(ms, k);
    lemma_first_marked(ms, k);
}

/// Selects the construction function among the member functions, returning
/// its position.
pub fn select_constructor(methods: &Vec<MethodSig>) -> (r: Result<usize, DiError>)
    ensures
        match r {
            Ok(i) => 0 <= i < methods@.len() && spec_select(methods@) == Ok::<int, DiError>(
                i as int,
            ),
            Err(e) => spec_select(methods@) == Err::<int, DiError>(e),
        },
{
    let ms = methods;
    let mut count: usize = 0;
    let mut first: usize = 0;
    let mut conv: Option<usize> = None;
    let mut i: usize = 0;
    while i < ms.len()
        invariant
            0 <= i <= ms@.len(),
            count <= i,
            count == marked_count(ms@.take(i as int)),
            count == 0 ==> forall|j: int| 0 <= j < i ==> !ms@[j].marked,
            count >= 1 ==> first < i && ms@[first as int].marked && (forall|j: int|
                0 <= j < first ==> !ms@[j].marked),
            match conv {
                Some(k) => k < i && is_conventional(ms@[k as int]) && (forall|j: int|
                    k < j < i ==> !is_conventional(ms@[j])),
                None => forall|j: int| 0 <= j < i ==> !is_conventional(ms@[j]),
            },
        decreases ms@.len() - i,
    {
        proof {
            assert(ms@.take(i as int + 1).drop_last() =~= ms@.take(i as int));
            assert(ms@.take(i as int + 1).last() == ms@[i as int]);
        }
        if ms[i].marked {
            if count == 0 {
                first = i;
            }
            count = count + 1;
        }
        if ms[i].name == String::from_str("new") {
            conv = Some(i);
        }
        i = i + 1;
    }
    proof {
        assert(ms@.take(ms@.len() as int) =~= ms@);
    }
    if count >= 2 {
        Err(DiError::AmbiguousInjectionPoint)
    } else if count == 1 {
        proof {
            lemma_first_marked(ms@, first as int);
        }
        Ok(first)
    } else {
        match conv {
            Some(k) => {
                proof {
                    lemma_last_conventional(ms@, k as int);
                }
                Ok(k)
            },
            None => {
                proof {
                    lemma_no_conventional(ms@);
                }
                Err(DiError::MissingInjectionPoint)
            },
        }
    }
}

} // verus!
