use vstd::prelude::*;

verus! {

/// One open pull request discovered by the search stage: the repository's
/// base API locator (not a human-facing URL) and the pull request's number.
#[derive(Debug)]
pub struct PrRecord {
    pub repo: String,
    pub number: u64,
}

/// Mathematical value of a [`PrRecord`].
pub struct PrRecordV {
    pub repo: Seq<char>,
    pub number: u64,
}

impl PrRecordV {
    /// A record is well formed when its repository locator is non-empty and
    /// its pull number positive.
    pub open spec fn wf(self) -> bool {
        self.repo.len() > 0 && self.number > 0
    }
}

impl View for PrRecord {
    type V = PrRecordV;

    open spec fn view(&self) -> PrRecordV {
        PrRecordV { repo: self.repo@, number: self.number }
    }
}

impl PrRecord {
    pub open spec fn wf(&self) -> bool {
        self@.wf()
    }
}

/// A login paired with its secret token. Anonymous runs carry no
/// credential at all; a present credential always has both parts.
pub struct Credential {
    pub login: String,
    pub token: String,
}

impl Credential {
    /// Both halves must be present: a credential is never used partially.
    pub open spec fn wf(&self) -> bool {
        self.login@.len() > 0 && self.token@.len() > 0
    }
}

/// The stage of the pipeline at which a fatal error arose.
#[derive(PartialEq, Eq, Structural, Clone, Copy, Debug)]
pub enum Stage {
    Search,
    Head,
    Status,
}

/// The fatal error taxonomy. A head commit or CI state that is legitimately
/// absent is not an error: the pipeline skips that pull request.
#[derive(PartialEq, Eq, Structural, Clone, Copy, Debug)]
pub enum RunError {
    /// The required user identity was not supplied; no network activity
    /// has occurred.
    Configuration,
    /// A search item lacked its repository reference or its number; the
    /// index is the item's position in the search response.
    MalformedRecord { index: usize },
    /// The transport failed (network or subprocess failure, non-success
    /// response, or an unparseable body) at the given stage.
    Transport { stage: Stage },
}

} // verus!
