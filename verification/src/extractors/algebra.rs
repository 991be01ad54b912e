//! The stages that every accessor is composed of.
//!
//! An accessor walks from the root of a document to one domain field in four steps: it selects
//! the sections of one kind, unwraps the payload they carry, projects each record to the
//! occurrences of the field and drops those that do not count, and then holds what is left to a
//! cardinality discipline. The first three steps are the same for every field but for two
//! things, which a field states once, in [`Extract`] and [`Policy`]: where it occurs in its
//! source record, and which occurrences count.
use crate::extractors::TefError;
use vstd::prelude::*;

verus! {

/// The records behind a sequence of references, in the same order.
pub open spec fn targets<T>(refs: Seq<&T>) -> Seq<T> {
    refs.map_values(|r: &T| *r)
}

/// The occurrences of an optional single element: one or none.
pub open spec fn optional_one<T>(element: Option<T>) -> Seq<T> {
    match element {
        Some(one) => seq![one],
        None => Seq::empty(),
    }
}

/// The occurrences of an optional repeated element: those listed, or none.
pub open spec fn optional_many<T>(elements: Option<Vec<T>>) -> Seq<T> {
    match elements {
        Some(many) => many@,
        None => Seq::empty(),
    }
}

/// The filtering policy of a field: which of its occurrences count toward its cardinality.
///
/// An occurrence that is its type's zero value never counts, since it stands for an element
/// that the document did not have. Some fields ask for more (a text that is not empty); each
/// implementor says what it asks for.
pub trait Policy: Sized {
    /// This occurrence counts.
    spec fn counts(self) -> bool;

    /// Whether this occurrence counts.
    fn qualifies(&self) -> (b: bool)
        ensures
            b == self.counts(),
    ;
}

/// A tagged child that may carry a record of type `T`.
pub trait Holds<T>: Sized {
    /// The record carried, if this child is of the kind that carries a `T`.
    spec fn payload(self) -> Option<T>;

    /// The record carried, if this child is of the kind that carries a `T`.
    fn payload_ref(&self) -> (r: Option<&T>)
        ensures
            match r {
                Some(record) => self.payload() == Some(*record),
                None => self.payload() is None,
            },
    ;
}

/// A field that is read out of source records of one type.
pub trait Extract: Policy {
    /// The record that the field is read from.
    type Source;

    /// Every occurrence of the field in one source record, in document order, whether it
    /// counts or not.
    spec fn occurrences(source: Self::Source) -> Seq<Self>;

    /// Appends to `out` the occurrences in `source` that count, in document order.
    fn collect<'a>(source: &'a Self::Source, out: &mut Vec<&'a Self>)
        ensures
            targets(final(out)@) == targets(old(out)@) + Self::occurrences(*source).filter(
                |c: Self| c.counts(),
            ),
    ;
}

/// The candidates that count, in the order of the candidates.
pub open spec fn kept<T: Policy>(candidates: Seq<T>) -> Seq<T> {
    candidates.filter(|c: T| c.counts())
}

/// Every occurrence of a field in a sequence of source records: those of the first record,
/// then those of the second, and so on.
pub open spec fn candidates<T: Extract>(sources: Seq<T::Source>) -> Seq<T> {
    sources.flat_map(|s: T::Source| T::occurrences(s))
}

/// The occurrences of a field in a sequence of source records that count, in document order.
pub open spec fn survivors<T: Extract>(sources: Seq<T::Source>) -> Seq<T> {
    kept(candidates::<T>(sources))
}

/// Appends `item` to `out` if it counts.
pub fn offer<'a, T: Policy>(item: &'a T, out: &mut Vec<&'a T>)
    ensures
        targets(final(out)@) == targets(old(out)@) + kept(seq![*item]),
{
    proof {
        Seq::<T>::empty().lemma_filter_push(*item, |c: T| c.counts());
        reveal(Seq::filter);
        assert(seq![*item] =~= Seq::<T>::empty().push(*item));
    }
    if item.qualifies() {
        out.push(item);
        proof {
            assert(targets(out@) =~= targets(old(out)@) + seq![*item]);
        }
    } else {
        proof {
            assert(targets(out@) =~= targets(old(out)@) + Seq::<T>::empty());
        }
    }
}

/// Appends to `out` the items that count, in order.
pub fn offer_all<'a, T: Policy>(items: &'a Vec<T>, out: &mut Vec<&'a T>)
    ensures
        targets(final(out)@) == targets(old(out)@) + kept(items@),
{
    let mut i: usize = 0;
    proof {
        reveal(Seq::filter);
        assert(items@.take(0) =~= Seq::<T>::empty());
        assert(targets(out@) =~= targets(old(out)@) + kept(items@.take(0)));
    }
    while i < items.len()
        invariant
            i <= items.len(),
            targets(out@) == targets(old(out)@) + kept(items@.take(i as int)),
        decreases items.len() - i,
    {
        let item = &items[i];
        offer(item, out);
        proof {
            assert(items@.take(i + 1) =~= items@.take(i as int) + seq![*item]);
            Seq::filter_distributes_over_add(items@.take(i as int), seq![*item], |c: T| c.counts());
            assert(targets(out@) =~= targets(old(out)@) + kept(items@.take(i + 1)));
        }
        i += 1;
    }
    proof {
        assert(items@.take(i as int) =~= items@);
    }
}

/// Appends `item` to `out` if there is one and it counts.
pub fn offer_optional<'a, T: Policy>(item: &'a Option<T>, out: &mut Vec<&'a T>)
    ensures
        targets(final(out)@) == targets(old(out)@) + kept(optional_one(*item)),
{
    match item {
        Some(one) => offer(one, out),
        None => {
            proof {
                reveal(Seq::filter);
                assert(targets(out@) =~= targets(old(out)@) + kept(Seq::<T>::empty()));
            }
        },
    }
}

/// Appends to `out` the items that count, in order, if any are listed.
pub fn offer_optional_all<'a, T: Policy>(items: &'a Option<Vec<T>>, out: &mut Vec<&'a T>)
    ensures
        targets(final(out)@) == targets(old(out)@) + kept(optional_many(*items)),
{
    match items {
        Some(many) => offer_all(many, out),
        None => {
            proof {
                reveal(Seq::filter);
                assert(targets(out@) =~= targets(old(out)@) + kept(Seq::<T>::empty()));
            }
        },
    }
}

/// The records of type `T` that the children carry, in order.
pub open spec fn payloads<C: Holds<T>, T>(children: Seq<C>) -> Seq<T> {
    children.filter_map(|c: C| c.payload())
}

/// Appends to `out` the records of type `T` that the children carry and that count, in order.
/// Children of another kind are passed over.
pub fn offer_payloads<'a, C: Holds<T>, T: Policy>(children: &'a Vec<C>, out: &mut Vec<&'a T>)
    ensures
        targets(final(out)@) == targets(old(out)@) + kept(payloads::<C, T>(children@)),
{
    let mut i: usize = 0;
    let ghost pick = |c: C| c.payload();
    proof {
        reveal(Seq::filter);
        assert(children@.take(0) =~= Seq::<C>::empty());
        assert(targets(out@) =~= targets(old(out)@) + kept(children@.take(0).filter_map(pick)));
    }
    while i < children.len()
        invariant
            i <= children.len(),
            pick == |c: C| c.payload(),
            targets(out@) == targets(old(out)@) + kept(children@.take(i as int).filter_map(pick)),
        decreases children.len() - i,
    {
        proof {
            children@.lemma_filter_map_take_succ(pick, i as int);
        }
        match children[i].payload_ref() {
            Some(record) => {
                offer(record, out);
                proof {
                    Seq::filter_distributes_over_add(
                        children@.take(i as int).filter_map(pick),
                        seq![*record],
                        |c: T| c.counts(),
                    );
                    assert(children@.take(i + 1).filter_map(pick) =~= children@.take(
                        i as int,
                    ).filter_map(pick) + seq![*record]);
                }
            },
            None => {},
        }
        i += 1;
    }
    proof {
        assert(children@.take(i as int) =~= children@);
    }
}

/// The occurrences of a field in one source record that count.
pub fn selected<'a, T: Extract>(source: &'a T::Source) -> (out: Vec<&'a T>)
    ensures
        targets(out@) == kept(T::occurrences(*source)),
{
    let mut out: Vec<&'a T> = Vec::new();
    T::collect(source, &mut out);
    proof {
        assert(targets(Seq::<&T>::empty()) + kept(T::occurrences(*source)) =~= kept(
            T::occurrences(*source),
        ));
    }
    out
}

/// The occurrences of a field in a sequence of source records that count.
pub fn surviving<'a, T: Extract>(sources: &Vec<&'a T::Source>) -> (out: Vec<&'a T>)
    ensures
        targets(out@) == survivors::<T>(targets(sources@)),
{
    let mut out: Vec<&'a T> = Vec::new();
    let mut i: usize = 0;
    let ghost all = targets(sources@);
    let ghost f = |s: T::Source| T::occurrences(s);
    proof {
        reveal(Seq::filter);
        assert(all.take(0) =~= Seq::<T::Source>::empty());
        assert(candidates::<T>(all.take(0)) =~= Seq::<T>::empty());
        assert(targets(out@) =~= survivors::<T>(all.take(0)));
    }
    while i < sources.len()
        invariant
            i <= sources.len(),
            all == targets(sources@),
            f == |s: T::Source| T::occurrences(s),
            targets(out@) == survivors::<T>(all.take(i as int)),
        decreases sources.len() - i,
    {
        T::collect(sources[i], &mut out);
        proof {
            all.lemma_flat_map_take_append(f, i as int);
            Seq::filter_distributes_over_add(
                candidates::<T>(all.take(i as int)),
                T::occurrences(all[i as int]),
                |c: T| c.counts(),
            );
        }
        i += 1;
    }
    proof {
        assert(all.take(i as int) =~= all);
    }
    out
}

/// Exactly one or error: the first that was found, or `missing` where none was.
pub open spec fn first_or<T>(found: Seq<T>, missing: TefError) -> Result<T, TefError> {
    if found.len() > 0 {
        Ok(found[0])
    } else {
        Err(missing)
    }
}

/// One or more or error: all that were found, or `missing` where none was.
pub open spec fn all_or<T>(found: Seq<T>, missing: TefError) -> Result<Seq<T>, TefError> {
    if found.len() > 0 {
        Ok(found)
    } else {
        Err(missing)
    }
}

/// At most one: the first that was found, absent where none was.
pub open spec fn maybe_first<T>(found: Seq<T>) -> Option<T> {
    if found.len() > 0 {
        Some(found[0])
    } else {
        None
    }
}

/// Zero or more: all that were found, absent where none was.
pub open spec fn maybe_all<T>(found: Seq<T>) -> Option<Seq<T>> {
    if found.len() > 0 {
        Some(found)
    } else {
        None
    }
}

/// The outcome is the error `missing`.
pub open spec fn fails_with<T>(outcome: Result<T, TefError>, missing: TefError) -> bool {
    outcome == Err::<T, TefError>(missing)
}

/// What a single mandatory value refers to.
pub open spec fn value_of<T>(outcome: Result<&T, TefError>) -> Result<T, TefError> {
    match outcome {
        Ok(one) => Ok(*one),
        Err(e) => Err(e),
    }
}

/// What a mandatory sequence refers to.
pub open spec fn values_of<T>(outcome: Result<Vec<&T>, TefError>) -> Result<Seq<T>, TefError> {
    match outcome {
        Ok(many) => Ok(targets(many@)),
        Err(e) => Err(e),
    }
}

/// What a single optional value refers to.
pub open spec fn optional_value_of<T>(outcome: Option<&T>) -> Option<T> {
    match outcome {
        Some(one) => Some(*one),
        None => None,
    }
}

/// What an optional sequence refers to.
pub open spec fn optional_values_of<T>(outcome: Option<Vec<&T>>) -> Option<Seq<T>> {
    match outcome {
        Some(many) => Some(targets(many@)),
        None => None,
    }
}

/// Holds `found` to the discipline exactly-one-or-error. Where several were found the first
/// one wins.
pub fn exactly_one<'a, T>(found: &Vec<&'a T>, missing: TefError) -> (r: Result<&'a T, TefError>)
    ensures
        value_of(r) == first_or(targets(found@), missing),
{
    if found.len() > 0 {
        Ok(found[0])
    } else {
        Err(missing)
    }
}

/// Holds `found` to the discipline one-or-more-or-error.
pub fn one_or_more<'a, T>(found: Vec<&'a T>, missing: TefError) -> (r: Result<
    Vec<&'a T>,
    TefError,
>)
    ensures
        values_of(r) == all_or(targets(found@), missing),
{
    if found.len() > 0 {
        Ok(found)
    } else {
        Err(missing)
    }
}

/// Holds `found` to the discipline at-most-one. Where several were found the first one wins.
pub fn at_most_one<'a, T>(found: &Vec<&'a T>) -> (r: Option<&'a T>)
    ensures
        optional_value_of(r) == maybe_first(targets(found@)),
{
    if found.len() > 0 {
        Some(found[0])
    } else {
        None
    }
}

/// Holds `found` to the discipline zero-or-more: an empty sequence is reported as absent.
pub fn zero_or_more<'a, T>(found: Vec<&'a T>) -> (r: Option<Vec<&'a T>>)
    ensures
        optional_values_of(r) == maybe_all(targets(found@)),
{
    if found.len() > 0 {
        Some(found)
    } else {
        None
    }
}

/// The value of a mandatory accessor for a caller that does not care why it is missing.
pub fn optional<T>(outcome: Result<T, TefError>) -> (r: Option<T>)
    ensures
        r == match outcome {
            Ok(value) => Some(value),
            Err(_) => None,
        },
{
    match outcome {
        Ok(value) => Some(value),
        Err(_) => None,
    }
}

} // verus!
