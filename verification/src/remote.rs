//! The remote services that an installation talks to, and the order in
//! which the download providers are tried.

pub mod steam;
pub mod steamworkshop_download;
pub mod steamworkshopdownloader_io;

use crate::remote::steamworkshopdownloader_io::{transmit_url, transmit_url_spec};
use vstd::prelude::*;

verus! {

/// One field of a form-encoded request.
#[derive(Clone, Debug, PartialEq, Eq)]
pub struct FormField {
    pub name: String,
    pub value: String,
}

impl FormField {
    /// Whether this field is `name=value`.
    pub open spec fn holds(&self, name: Seq<char>, value: Seq<char>) -> bool {
        self.name@ == name && self.value@ == value
    }
}

/// The download providers, in the order in which they are tried.
#[derive(Clone, Copy, Debug, PartialEq, Eq, Structural)]
pub enum ProviderKind {
    /// Searches a download page for a direct link.
    Scrape,
    /// Hands out a ticket to redeem.
    Ticket,
}

/// Why one provider gave no link.
#[derive(Clone, Copy, Debug, PartialEq, Eq, Structural)]
pub enum ProviderError {
    /// The request failed, timed out or was answered with an error status.
    Transport,
    /// The page held no link to the item's archive.
    LinkNotFound,
    /// The answer could not be decoded or lacks the ticket.
    MalformedResponse,
}

/// What one provider's attempt came to.
#[derive(Clone, Debug, PartialEq, Eq)]
pub enum ProviderOutcome {
    /// A URL to fetch the archive from.
    DirectLink(String),
    /// A ticket to exchange for the archive.
    TransferTicket(String),
    /// No link; the next provider is to be tried.
    Failure(ProviderError),
}

/// Every provider failed.
#[derive(Clone, Copy, Debug, PartialEq, Eq, Structural)]
pub struct ExhaustedProviders;

/// Where the search for a download link stands.
#[derive(Clone, Debug, PartialEq, Eq)]
pub enum ProviderChain {
    /// The named provider is to be tried next.
    Pending(ProviderKind),
    /// A provider gave this link; no other is tried.
    Resolved(String),
    /// Every provider was tried and failed.
    Exhausted,
}

/// A chain's state with its link as plain text.
pub enum ChainView {
    Pending(ProviderKind),
    Resolved(Seq<char>),
    Exhausted,
}

impl View for ProviderChain {
    type V = ChainView;

    open spec fn view(&self) -> ChainView {
        match *self {
            ProviderChain::Pending(kind) => ChainView::Pending(kind),
            ProviderChain::Resolved(link) => ChainView::Resolved(link@),
            ProviderChain::Exhausted => ChainView::Exhausted,
        }
    }
}

/// The provider tried first.
pub open spec fn first_provider() -> ProviderKind {
    ProviderKind::Scrape
}

/// The provider tried after `kind` has failed, if any is left.
pub open spec fn provider_after(kind: ProviderKind) -> Option<ProviderKind> {
    match kind {
        ProviderKind::Scrape => Some(ProviderKind::Ticket),
        ProviderKind::Ticket => None,
    }
}

/// The download link that an outcome stands for: a direct link as it is, a
/// ticket put into the transmit URL, and none for a failure.
pub open spec fn link_of(outcome: ProviderOutcome) -> Option<Seq<char>> {
    match outcome {
        ProviderOutcome::DirectLink(url) => Some(url@),
        ProviderOutcome::TransferTicket(uuid) => Some(transmit_url_spec(uuid@)),
        ProviderOutcome::Failure(_) => None,
    }
}

/// The state that follows `state` once the pending provider's outcome is
/// known. A link ends the search; a failure moves on to the next provider,
/// or ends the search without a link where none is left. A search that has
/// ended stays as it is.
pub open spec fn chain_step(state: ChainView, outcome: ProviderOutcome) -> ChainView {
    match state {
        ChainView::Pending(kind) => match link_of(outcome) {
            Some(link) => ChainView::Resolved(link),
            None => match provider_after(kind) {
                Some(next) => ChainView::Pending(next),
                None => ChainView::Exhausted,
            },
        },
        _ => state,
    }
}

/// The state reached from `state` by the outcomes of `outcomes`, in order.
pub open spec fn chain_run(state: ChainView, outcomes: Seq<ProviderOutcome>) -> ChainView
    decreases outcomes.len(),
{
    if outcomes.len() == 0 {
        state
    } else {
        chain_step(chain_run(state, outcomes.drop_last()), outcomes.last())
    }
}

/// The download link that an outcome stands for, if it stands for one.
pub fn download_link(outcome: ProviderOutcome) -> (link: Option<String>)
    ensures
        match link {
            Some(url) => link_of(outcome) == Some(url@),
            None => link_of(outcome) is None,
        },
{
    match outcome {
        ProviderOutcome::DirectLink(url) => Some(url),
        ProviderOutcome::TransferTicket(uuid) => Some(transmit_url(uuid.as_str())),
        ProviderOutcome::Failure(_) => None,
    }
}

impl ProviderChain {
    /// A search that has tried no provider yet.
    pub fn new() -> (chain: ProviderChain)
        ensures
            chain@ == ChainView::Pending(first_provider()),
    {
        ProviderChain::Pending(ProviderKind::Scrape)
    }

    /// Takes note of what the pending provider's attempt came to.
    pub fn record(self, outcome: ProviderOutcome) -> (next: ProviderChain)
        ensures
            next@ == chain_step(self@, outcome),
    {
        match self {
            ProviderChain::Pending(kind) => match download_link(outcome) {
                Some(link) => ProviderChain::Resolved(link),
                None => match kind {
                    ProviderKind::Scrape => ProviderChain::Pending(ProviderKind::Ticket),
                    ProviderKind::Ticket => ProviderChain::Exhausted,
                },
            },
            ProviderChain::Resolved(link) => ProviderChain::Resolved(link),
            ProviderChain::Exhausted => ProviderChain::Exhausted,
        }
    }

    /// The provider to try next, while the search goes on.
    pub fn pending(&self) -> (kind: Option<ProviderKind>)
        ensures
            kind == match self@ {
                ChainView::Pending(k) => Some(k),
                _ => None,
            },
    {
        match self {
            ProviderChain::Pending(kind) => Some(*kind),
            _ => None,
        }
    }

    /// How the search ended: with a link, or with every provider having
    /// failed. `None` while a provider is still to be tried.
    pub fn resolution(self) -> (r: Option<Result<String, ExhaustedProviders>>)
        ensures
            match self@ {
                ChainView::Pending(_) => r is None,
                ChainView::Resolved(link) => r matches Some(Ok(url)) && url@ == link,
                ChainView::Exhausted => r == Some(
                    Err::<String, ExhaustedProviders>(ExhaustedProviders),
                ),
            },
    {
        match self {
            ProviderChain::Pending(_) => None,
            ProviderChain::Resolved(link) => Some(Ok(link)),
            ProviderChain::Exhausted => Some(Err(ExhaustedProviders)),
        }
    }
}

/// A search over two outcomes is two steps, one after the other.
proof fn lemma_run_of_two(start: ChainView, first: ProviderOutcome, second: ProviderOutcome)
    ensures
        chain_run(start, seq![first, second]) == chain_step(chain_step(start, first), second),
{
    let both = seq![first, second];
    assert(both.drop_last() =~= seq![first]);
    assert(seq![first].drop_last() =~= Seq::<ProviderOutcome>::empty());
    assert(chain_run(start, Seq::<ProviderOutcome>::empty()) == start);
    assert(chain_run(start, seq![first]) == chain_step(start, first));
}

/// A failed provider never supplies the link: where the first provider
/// fails and the second gives a link, the search ends with the second's.
pub proof fn lemma_fallback_uses_second(first: ProviderOutcome, second: ProviderOutcome)
    requires
        link_of(first) is None,
        link_of(second) is Some,
    ensures
        chain_run(ChainView::Pending(first_provider()), seq![first, second]) == ChainView::Resolved(
            link_of(second).unwrap(),
        ),
{
    lemma_run_of_two(ChainView::Pending(first_provider()), first, second);
}

/// A link ends the search: whatever is recorded afterwards, it stays.
pub proof fn lemma_link_is_final(link: Seq<char>, outcomes: Seq<ProviderOutcome>)
    ensures
        chain_run(ChainView::Resolved(link), outcomes) == ChainView::Resolved(link),
    decreases outcomes.len(),
{
    if outcomes.len() > 0 {
        lemma_link_is_final(link, outcomes.drop_last());
    }
}

/// The first provider's link is used as soon as it is there, whatever any
/// later provider would answer.
pub proof fn lemma_first_link_wins(outcomes: Seq<ProviderOutcome>)
    requires
        outcomes.len() > 0,
        link_of(outcomes[0]) is Some,
    ensures
        chain_run(ChainView::Pending(first_provider()), outcomes) == ChainView::Resolved(
            link_of(outcomes[0]).unwrap(),
        ),
    decreases outcomes.len(),
{
    let start = ChainView::Pending(first_provider());
    if outcomes.len() == 1 {
        assert(outcomes.drop_last() =~= Seq::<ProviderOutcome>::empty());
        assert(chain_run(start, outcomes.drop_last()) == start);
    } else {
        lemma_first_link_wins(outcomes.drop_last());
    }
}

/// Where every provider fails, the search ends without a link, and only
/// then: a search that has ended without a link has seen two failures.
pub proof fn lemma_exhausted_iff_all_fail(first: ProviderOutcome, second: ProviderOutcome)
    ensures
        chain_run(ChainView::Pending(first_provider()), seq![first, second])
            == ChainView::Exhausted <==> link_of(first) is None && link_of(second) is None,
{
    lemma_run_of_two(ChainView::Pending(first_provider()), first, second);
}

} // verus!
