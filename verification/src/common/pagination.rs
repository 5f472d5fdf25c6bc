//! Draining a paginated listing into one sequence.
//!
//! A traversal asks for page 1, 2, 3, ... and stops at the first page that
//! comes back empty. Nothing else ends it: the counts and links that a
//! listing may also report are not consulted. A failed fetch ends it at
//! once, and what was gathered until then is dropped.

use vstd::prelude::*;
use crate::common::errors::HttpError;
use crate::common::page_token::{decimal, page_token};

verus! {

/// What one page fetch returned, with the items seen as a sequence.
pub open spec fn page_view<T>(response: Result<Vec<T>, HttpError>) -> Result<Seq<T>, HttpError> {
    match response {
        Ok(items) => Ok(items@),
        Err(error) => Err(error),
    }
}

/// The mathematical state of a traversal.
pub enum TraversalState<T> {
    /// The fetch of `page` is outstanding; `items` holds pages `1..page`.
    Fetching { page: nat, items: Seq<T> },
    /// The traversal is over after `requests` fetches.
    Done { requests: nat, outcome: Result<Seq<T>, HttpError> },
}

impl<T> TraversalState<T> {
    /// A traversal that has not fetched anything yet.
    pub open spec fn initial() -> Self {
        TraversalState::Fetching { page: 1, items: Seq::empty() }
    }

    /// The state after the outstanding fetch returned `response`.
    /// A finished traversal stays as it is.
    pub open spec fn next(self, response: Result<Seq<T>, HttpError>) -> Self {
        match self {
            TraversalState::Done { .. } => self,
            TraversalState::Fetching { page, items } => match response {
                Err(error) => TraversalState::Done { requests: page, outcome: Err(error) },
                Ok(fetched) => if fetched.len() == 0 {
                    TraversalState::Done { requests: page, outcome: Ok(items) }
                } else {
                    TraversalState::Fetching { page: page + 1, items: items + fetched }
                },
            },
        }
    }

    /// The state of a fresh traversal that was fed `responses` in order.
    pub open spec fn after(responses: Seq<Result<Seq<T>, HttpError>>) -> Self
        decreases responses.len(),
    {
        if responses.len() == 0 {
            Self::initial()
        } else {
            Self::after(responses.drop_last()).next(responses.last())
        }
    }

    /// How many fetches the traversal has consumed the result of.
    pub open spec fn requests(self) -> nat {
        match self {
            TraversalState::Fetching { page, .. } => (page - 1) as nat,
            TraversalState::Done { requests, .. } => requests,
        }
    }
}

/// A traversal with a fetch outstanding: the page cursor and the
/// accumulator.
///
/// The cursor is wider than a vector's length, so that the page after the
/// last one a vector could take still has a number.
pub struct Traversal<T> {
    page: u128,
    items: Vec<T>,
}

/// What a traversal turns into when a fetch returns.
pub enum Step<T> {
    /// Another page has to be fetched.
    Fetch(Traversal<T>),
    /// The traversal is over after `requests` fetches.
    Done { requests: u128, outcome: Result<Vec<T>, HttpError> },
}

impl<T> View for Traversal<T> {
    type V = TraversalState<T>;

    open spec fn view(&self) -> TraversalState<T> {
        TraversalState::Fetching { page: self.cursor(), items: self.gathered() }
    }
}

impl<T> View for Step<T> {
    type V = TraversalState<T>;

    open spec fn view(&self) -> TraversalState<T> {
        match *self {
            Step::Fetch(traversal) => traversal@,
            Step::Done { requests, outcome } => TraversalState::Done {
                requests: requests as nat,
                outcome: page_view(outcome),
            },
        }
    }
}

impl<T> Traversal<T> {
    #[verifier::type_invariant]
    spec fn cursor_follows_items(self) -> bool {
        1 <= self.page && self.page - 1 <= self.items@.len()
    }

    /// The 1-based number of the page whose fetch is outstanding.
    pub closed spec fn cursor(&self) -> nat {
        self.page as nat
    }

    /// The items of the pages before the cursor, in order.
    pub closed spec fn gathered(&self) -> Seq<T> {
        self.items@
    }

    /// Starts a traversal at page 1 with nothing gathered.
    pub fn new() -> (traversal: Traversal<T>)
        ensures
            traversal@ == TraversalState::<T>::initial(),
    {
        Traversal { page: 1, items: Vec::new() }
    }

    /// The number of the page to fetch next.
    pub fn page(&self) -> (page: u128)
        ensures
            page == self.cursor(),
            1 <= page <= usize::MAX + 1,
    {
        proof {
            use_type_invariant(self);
            assert(self.items.len() == self.items@.len());
        }
        self.page
    }

    /// The token of the page to fetch next.
    pub fn page_token(&self) -> (token: String)
        ensures
            token@ == decimal(self.cursor()),
    {
        page_token(self.page)
    }

    /// Hands the result of the outstanding fetch to the traversal.
    ///
    /// An empty page ends it with everything gathered so far; a failure
    /// ends it with that failure alone; any other page is appended and the
    /// cursor moves on by one.
    pub fn advance(self, response: Result<Vec<T>, HttpError>) -> (step: Step<T>)
        ensures
            step@ == self@.next(page_view(response)),
            match step {
                Step::Fetch(next) => next.cursor() <= usize::MAX + 1,
                Step::Done { requests, .. } => requests <= usize::MAX + 1,
            },
    {
        proof {
            use_type_invariant(&self);
        }
        let Traversal { page, items } = self;
        assert(items.len() == items@.len());
        match response {
            Err(error) => Step::Done { requests: page, outcome: Err(error) },
            Ok(fetched) => {
                if fetched.len() == 0 {
                    Step::Done { requests: page, outcome: Ok(items) }
                } else {
                    let mut items = items;
                    let mut fetched = fetched;
                    items.append(&mut fetched);
                    assert(items.len() == items@.len());
                    Step::Fetch(Traversal { page: page + 1, items })
                }
            },
        }
    }
}

/// A listing that is read one page at a time.
pub trait PaginatedResource {
    /// What a page is made of.
    type Item;

    /// Fetches the page that `page` names and returns its items in order.
    /// A page is named by its number, counted from 1, in decimal; any
    /// other text is passed on as it is, and what comes of it is up to the
    /// listing. Makes exactly one round trip.
    fn _get(&self, page: &str) -> Result<Vec<Self::Item>, HttpError>;

    /// Fetches page after page, from page 1 on, until one comes back
    /// empty, and returns the items of all of them in order. The first
    /// failing fetch ends the traversal with its error.
    ///
    /// Whatever the listing answers, the outcome is that of a traversal
    /// fed with the answers to the fetches of page 1, 2, 3, ... in that
    /// order, and the last fetch made is the one that ended it.
    fn all(&self) -> (outcome: Result<Vec<Self::Item>, HttpError>)
        ensures
            exists|tokens: Seq<&str>, responses: Seq<Result<Vec<Self::Item>, HttpError>>|
                {
                    &&& tokens.len() == responses.len()
                    &&& forall|i: int|
                        0 <= i < tokens.len() ==> (#[trigger] tokens[i])@ == decimal((i + 1) as nat)
                            && Self::_get.ensures((self, tokens[i]), responses[i])
                    &&& TraversalState::after(page_views(responses)) == (TraversalState::Done {
                        requests: responses.len(),
                        outcome: page_view(outcome),
                    })
                },
    {
        let mut traversal: Traversal<Self::Item> = Traversal::new();
        let ghost mut tokens: Seq<&str> = Seq::empty();
        let ghost mut responses: Seq<Result<Vec<Self::Item>, HttpError>> = Seq::empty();
        loop
            invariant
                traversal@ == TraversalState::after(page_views(responses)),
                traversal.cursor() == responses.len() + 1,
                traversal.cursor() <= usize::MAX + 1,
                tokens.len() == responses.len(),
                forall|i: int|
                    0 <= i < tokens.len() ==> (#[trigger] tokens[i])@ == decimal((i + 1) as nat)
                        && Self::_get.ensures((self, tokens[i]), responses[i]),
            decreases usize::MAX + 1 - traversal.cursor(),
        {
            let token = traversal.page_token();
            let text = token.as_str();
            let response = self._get(text);
            proof {
                let before = responses;
                tokens = tokens.push(text);
                responses = responses.push(response);
                assert(page_views(responses).drop_last() =~= page_views(before));
            }
            match traversal.advance(response) {
                Step::Fetch(next) => {
                    traversal = next;
                },
                Step::Done { requests, outcome } => {
                    assert(TraversalState::after(page_views(responses)) == (TraversalState::Done {
                        requests: responses.len(),
                        outcome: page_view(outcome),
                    }));
                    assert(tokens.len() == responses.len());
                    return outcome;
                },
            }
        }
    }
}

/// The page views of a sequence of fetch results.
pub open spec fn page_views<T>(responses: Seq<Result<Vec<T>, HttpError>>) -> Seq<
    Result<Seq<T>, HttpError>,
> {
    responses.map_values(|response: Result<Vec<T>, HttpError>| page_view(response))
}

/// A page that holds at least one item, however few.
pub open spec fn is_nonempty_page<T>(response: Result<Seq<T>, HttpError>) -> bool {
    response is Ok && response->Ok_0.len() > 0
}

/// A page without items: the end-of-data signal.
pub open spec fn is_empty_page<T>(response: Result<Seq<T>, HttpError>) -> bool {
    response is Ok && response->Ok_0.len() == 0
}

/// The items of the given pages, one page after the other.
pub open spec fn concat_pages<T>(responses: Seq<Result<Seq<T>, HttpError>>) -> Seq<T>
    decreases responses.len(),
{
    if responses.len() == 0 {
        Seq::empty()
    } else {
        concat_pages(responses.drop_last()) + match responses.last() {
            Ok(items) => items,
            Err(_) => Seq::empty(),
        }
    }
}

/// As long as every page holds something, the traversal keeps fetching:
/// after `n` such pages the cursor is at page `n + 1` and the accumulator
/// holds the pages one after the other.
pub proof fn lemma_nonempty_pages_keep_fetching<T>(responses: Seq<Result<Seq<T>, HttpError>>)
    requires
        forall|i: int| 0 <= i < responses.len() ==> is_nonempty_page(#[trigger] responses[i]),
    ensures
        TraversalState::after(responses) == (TraversalState::Fetching {
            page: responses.len() + 1,
            items: concat_pages(responses),
        }),
    decreases responses.len(),
{
    if responses.len() > 0 {
        lemma_nonempty_pages_keep_fetching(responses.drop_last());
    }
}

/// A finished traversal takes no further response into account.
pub proof fn lemma_done_is_final<T>(responses: Seq<Result<Seq<T>, HttpError>>, n: int)
    requires
        0 <= n <= responses.len(),
        TraversalState::after(responses.take(n)) is Done,
    ensures
        TraversalState::after(responses) == TraversalState::after(responses.take(n)),
    decreases responses.len() - n,
{
    if n == responses.len() {
        assert(responses.take(n) =~= responses);
    } else {
        assert(responses.drop_last().take(n) =~= responses.take(n));
        lemma_done_is_final(responses.drop_last(), n);
    }
}

/// Termination: when page `n` is the first empty one, the traversal makes
/// exactly `n` fetches and returns the pages before it, one after the
/// other, whatever the source would have answered to further fetches.
pub proof fn lemma_ends_at_first_empty_page<T>(responses: Seq<Result<Seq<T>, HttpError>>, n: int)
    requires
        1 <= n <= responses.len(),
        forall|i: int| 0 <= i < n - 1 ==> is_nonempty_page(#[trigger] responses[i]),
        is_empty_page(responses[n - 1]),
    ensures
        TraversalState::after(responses) == (TraversalState::Done {
            requests: n as nat,
            outcome: Ok(concat_pages(responses.take(n - 1))),
        }),
        forall|k: int|
            0 <= k < n ==> #[trigger] TraversalState::after(responses.take(k)) is Fetching,
{
    let prefix = responses.take(n - 1);
    lemma_nonempty_pages_keep_fetching(prefix);
    assert(responses.take(n).drop_last() =~= prefix);
    lemma_done_is_final(responses, n);
    assert forall|k: int| 0 <= k < n implies #[trigger] TraversalState::after(
        responses.take(k),
    ) is Fetching by {
        lemma_nonempty_pages_keep_fetching(responses.take(k));
    }
}

/// Error short-circuit: when the fetch of page `m` is the first to fail,
/// the traversal ends there with that failure and hands out nothing of
/// what pages `1..m` held.
pub proof fn lemma_ends_at_first_failure<T>(responses: Seq<Result<Seq<T>, HttpError>>, m: int)
    requires
        1 <= m <= responses.len(),
        forall|i: int| 0 <= i < m - 1 ==> is_nonempty_page(#[trigger] responses[i]),
        responses[m - 1] is Err,
    ensures
        TraversalState::after(responses) == (TraversalState::<T>::Done {
            requests: m as nat,
            outcome: Err(responses[m - 1]->Err_0),
        }),
{
    let prefix = responses.take(m - 1);
    lemma_nonempty_pages_keep_fetching(prefix);
    assert(responses.take(m).drop_last() =~= prefix);
    lemma_done_is_final(responses, m);
}

/// Pages of one size add up: `n` pages of `size` items hold `n * size`.
pub proof fn lemma_concat_of_equal_pages<T>(responses: Seq<Result<Seq<T>, HttpError>>, size: nat)
    requires
        forall|i: int|
            0 <= i < responses.len() ==> (#[trigger] responses[i]) is Ok
                && responses[i]->Ok_0.len() == size,
    ensures
        concat_pages(responses).len() == responses.len() * size,
    decreases responses.len(),
{
    if responses.len() > 0 {
        lemma_concat_of_equal_pages(responses.drop_last(), size);
        assert((responses.len() - 1) * size + size == responses.len() * size)
            by (nonlinear_arith);
    }
}

/// One extra round trip on exact multiples: when the listing holds exactly
/// `k` pages of `size` items, the traversal makes `k + 1` fetches, the
/// last of which comes back empty, and returns `k * size` items.
pub proof fn lemma_exact_multiple_costs_one_more<T>(
    responses: Seq<Result<Seq<T>, HttpError>>,
    k: nat,
    size: nat,
)
    requires
        size >= 1,
        k < responses.len(),
        forall|i: int|
            0 <= i < k ==> (#[trigger] responses[i]) is Ok && responses[i]->Ok_0.len() == size,
        is_empty_page(responses[k as int]),
    ensures
        TraversalState::after(responses) is Done,
        TraversalState::after(responses).requests() == k + 1,
        TraversalState::after(responses)->outcome is Ok,
        TraversalState::after(responses)->outcome->Ok_0.len() == k * size,
{
    lemma_ends_at_first_empty_page(responses, (k + 1) as int);
    lemma_concat_of_equal_pages(responses.take(k as int), size);
}

/// The pages keep their place: item `j` of page `i + 1` stands in the
/// concatenation right after everything that pages `1..=i` hold.
pub proof fn lemma_concat_keeps_order<T>(
    responses: Seq<Result<Seq<T>, HttpError>>,
    i: int,
    j: int,
)
    requires
        0 <= i < responses.len(),
        responses[i] is Ok,
        0 <= j < responses[i]->Ok_0.len(),
    ensures
        concat_pages(responses.take(i)).len() + j < concat_pages(responses).len(),
        concat_pages(responses)[concat_pages(responses.take(i)).len() + j]
            == responses[i]->Ok_0[j],
        concat_pages(responses.take(i + 1)).len() == concat_pages(responses.take(i)).len()
            + responses[i]->Ok_0.len(),
    decreases responses.len(),
{
    assert(responses.take(i + 1).drop_last() =~= responses.take(i));
    if i == responses.len() - 1 {
        assert(responses.drop_last() =~= responses.take(i));
    } else {
        assert(responses.drop_last().take(i) =~= responses.take(i));
        assert(responses.drop_last().take(i + 1) =~= responses.take(i + 1));
        lemma_concat_keeps_order(responses.drop_last(), i, j);
    }
}

/// Order preservation: when page `n` is the first empty one, the returned
/// sequence holds item `j` of page `i + 1` right after everything that the
/// pages before it hold. Nothing is reordered and nothing is dropped.
pub proof fn lemma_traversal_keeps_order<T>(
    responses: Seq<Result<Seq<T>, HttpError>>,
    n: int,
    i: int,
    j: int,
)
    requires
        1 <= n <= responses.len(),
        forall|p: int| 0 <= p < n - 1 ==> is_nonempty_page(#[trigger] responses[p]),
        is_empty_page(responses[n - 1]),
        0 <= i < n - 1,
        0 <= j < responses[i]->Ok_0.len(),
    ensures
        TraversalState::after(responses) is Done,
        TraversalState::after(responses)->outcome is Ok,
        concat_pages(responses.take(i)).len() + j
            < TraversalState::after(responses)->outcome->Ok_0.len(),
        TraversalState::after(responses)->outcome->Ok_0[concat_pages(responses.take(i)).len() + j]
            == responses[i]->Ok_0[j],
{
    lemma_ends_at_first_empty_page(responses, n);
    let prefix = responses.take(n - 1);
    assert(prefix.take(i) =~= responses.take(i));
    lemma_concat_keeps_order(prefix, i, j);
}

} // verus!
