//! Directory lifecycle and the table of pending requests.
//!
//! A directory is announced, then acknowledged, with success or without.
//! Requests are accepted against directories that were acknowledged with
//! success only. Each accepted request stays pending under its completion
//! identifier until the response with that identifier resolves it. Nothing
//! here waits or retries: a request without a response stays pending.
//!
//! The table is a plain value. Where requests are sent and responses arrive
//! on different threads, its owner keeps it behind one lock, so that each
//! call below is atomic with respect to the others.

use std::collections::HashMap;
use vstd::prelude::*;

use crate::codes::TdpErrCode;
use crate::error::ProtocolError;
use crate::messages::{
    OperationKind, Request, Response, SharedDirectoryAcknowledge, SharedDirectoryAnnounce,
};

verus! {

broadcast use vstd::std_specs::hash::group_hash_axioms;

/// Where a directory stands in its lifecycle.
#[derive(Debug, Copy, Clone, PartialEq, Eq, Structural)]
pub enum DirectoryState {
    /// Announced, and waiting for the acknowledgement.
    Announced,
    /// Acknowledged with the given code: usable if the code is `Nil`, and
    /// failed for good otherwise.
    Acknowledged(TdpErrCode),
}

impl DirectoryState {
    /// Whether requests against the directory are accepted.
    pub open spec fn spec_is_ready(self) -> bool {
        self == DirectoryState::Acknowledged(TdpErrCode::Nil)
    }

    /// Whether requests against the directory are accepted.
    #[verifier::when_used_as_spec(spec_is_ready)]
    pub fn is_ready(self) -> (ready: bool)
        ensures
            ready == self.spec_is_ready(),
    {
        match self {
            DirectoryState::Acknowledged(code) => code.is_nil(),
            DirectoryState::Announced => false,
        }
    }
}

/// What the table remembers of a request in order to judge its response.
#[derive(Debug, Copy, Clone, PartialEq, Eq, Structural)]
pub struct Expectation {
    pub completion_id: u32,
    pub directory_id: u32,
    /// The operation that the response has to answer.
    pub kind: OperationKind,
    /// The most bytes that the response may report.
    pub byte_limit: u64,
}

impl Expectation {
    /// What is expected of the response to `request`.
    pub open spec fn spec_of(request: &Request) -> Expectation {
        Expectation {
            completion_id: request.spec_completion_id(),
            directory_id: request.spec_directory_id(),
            kind: request.spec_kind(),
            byte_limit: request.spec_byte_limit(),
        }
    }

    /// Whether `response` is of the expected type and reports no more bytes
    /// than the request allows.
    pub open spec fn spec_admits(&self, response: &Response) -> bool {
        response.spec_kind() == self.kind && response.spec_byte_count() <= self.byte_limit
    }

    /// What is expected of the response to `request`.
    #[verifier::when_used_as_spec(spec_of)]
    pub fn of(request: &Request) -> (expectation: Expectation)
        ensures
            expectation == Expectation::spec_of(request),
    {
        Expectation {
            completion_id: request.completion_id(),
            directory_id: request.directory_id(),
            kind: request.kind(),
            byte_limit: request.byte_limit(),
        }
    }

    /// Whether `response` is of the expected type and reports no more bytes
    /// than the request allows.
    #[verifier::when_used_as_spec(spec_admits)]
    pub fn admits(&self, response: &Response) -> (admitted: bool)
        ensures
            admitted == self.spec_admits(response),
    {
        response.kind() == self.kind && response.byte_count() <= self.byte_limit
    }
}

/// A request that waits for its response, with the target that the response
/// is to be delivered to.
#[derive(Debug)]
pub struct Pending<T> {
    pub expectation: Expectation,
    pub target: T,
}

/// A response that was matched to its request.
#[derive(Debug)]
pub struct Delivery<T> {
    /// What the table remembered of the request.
    pub expectation: Expectation,
    /// The target that was registered with the request.
    pub target: T,
    pub response: Response,
}

/// The state of the correlation layer as mathematical maps.
pub struct CorrelatorView<T> {
    /// The directories of the session, by directory identifier.
    pub directories: Map<u32, DirectoryState>,
    /// The requests without a response yet, by completion identifier.
    pub pending: Map<u32, Pending<T>>,
}

impl<T> CorrelatorView<T> {
    /// The state before anything was announced.
    pub open spec fn empty() -> CorrelatorView<T> {
        CorrelatorView { directories: Map::empty(), pending: Map::empty() }
    }

    /// Whether requests against directory `directory_id` are accepted.
    pub open spec fn is_ready(self, directory_id: u32) -> bool {
        self.directories.contains_key(directory_id) && self.directories[directory_id].is_ready()
    }

    /// Every pending request stands under its own completion identifier and
    /// names a directory that accepts requests, and both maps are finite.
    pub open spec fn well_formed(self) -> bool {
        &&& self.directories.dom().finite()
        &&& self.pending.dom().finite()
        &&& forall|id: u32| #[trigger]
            self.pending.contains_key(id) ==> self.pending[id].expectation.completion_id == id
                && self.is_ready(self.pending[id].expectation.directory_id)
    }

    /// Announcing directory `directory_id`: rejected if the identifier is in
    /// use, whatever the state of that directory.
    pub open spec fn announce(self, directory_id: u32) -> Result<CorrelatorView<T>, ProtocolError> {
        if self.directories.contains_key(directory_id) {
            Err(ProtocolError::DuplicateDirectory { directory_id })
        } else {
            Ok(
                CorrelatorView {
                    directories: self.directories.insert(directory_id, DirectoryState::Announced),
                    pending: self.pending,
                },
            )
        }
    }

    /// Acknowledging a directory: rejected unless the directory is announced
    /// and not acknowledged yet.
    pub open spec fn acknowledge(self, ack: SharedDirectoryAcknowledge) -> Result<
        CorrelatorView<T>,
        ProtocolError,
    > {
        if self.directories.contains_key(ack.directory_id) && self.directories[ack.directory_id]
            == DirectoryState::Announced {
            Ok(
                CorrelatorView {
                    directories: self.directories.insert(
                        ack.directory_id,
                        DirectoryState::Acknowledged(ack.err_code),
                    ),
                    pending: self.pending,
                },
            )
        } else {
            Err(ProtocolError::UnexpectedAcknowledge { directory_id: ack.directory_id })
        }
    }

    /// Registering a request before it is sent: rejected if its directory
    /// does not accept requests, and else if its completion identifier is
    /// pending.
    pub open spec fn register(self, expectation: Expectation, target: T) -> Result<
        CorrelatorView<T>,
        ProtocolError,
    > {
        if !self.is_ready(expectation.directory_id) {
            Err(ProtocolError::DirectoryNotReady { directory_id: expectation.directory_id })
        } else if self.pending.contains_key(expectation.completion_id) {
            Err(ProtocolError::DuplicateCompletionId { completion_id: expectation.completion_id })
        } else {
            Ok(
                CorrelatorView {
                    directories: self.directories,
                    pending: self.pending.insert(
                        expectation.completion_id,
                        Pending { expectation, target },
                    ),
                },
            )
        }
    }

    /// Why `response` cannot be delivered, if it cannot: no request is
    /// pending under its completion identifier, or the pending request
    /// expects another type of response, or fewer bytes.
    pub open spec fn refusal(self, response: &Response) -> Option<ProtocolError> {
        let completion_id = response.spec_completion_id();
        if !self.pending.contains_key(completion_id) {
            Some(ProtocolError::UnknownCompletionId { completion_id })
        } else if self.pending[completion_id].expectation.kind != response.spec_kind() {
            Some(ProtocolError::UnexpectedResponseType { completion_id })
        } else if response.spec_byte_count() > self.pending[completion_id].expectation.byte_limit {
            Some(ProtocolError::LengthExceeded { completion_id })
        } else {
            None
        }
    }

    /// The state after the request under `completion_id` was resolved.
    pub open spec fn without(self, completion_id: u32) -> CorrelatorView<T> {
        CorrelatorView {
            directories: self.directories,
            pending: self.pending.remove(completion_id),
        }
    }
}

/// The two tables of a session. They are taken out of the correlator while
/// one of them changes and put back at once, so that the correlator is well
/// formed at every step.
struct Tables<T> {
    directories: HashMap<u32, DirectoryState>,
    pending: HashMap<u32, Pending<T>>,
}

impl<T> Tables<T> {
    /// Two empty tables; this allocates nothing.
    fn new() -> (tables: Tables<T>)
        ensures
            tables.directories@ == Map::<u32, DirectoryState>::empty(),
            tables.pending@ == Map::<u32, Pending<T>>::empty(),
    {
        Tables { directories: HashMap::new(), pending: HashMap::new() }
    }
}

/// The correlation layer of one session: its directories and its pending
/// requests, each with a delivery target of type `T`.
///
/// Every value is well formed, as [`CorrelatorView::well_formed`] has it.
pub struct Correlator<T> {
    tables: Tables<T>,
}

impl<T> View for Correlator<T> {
    type V = CorrelatorView<T>;

    closed spec fn view(&self) -> CorrelatorView<T> {
        CorrelatorView { directories: self.tables.directories@, pending: self.tables.pending@ }
    }
}

impl<T> Correlator<T> {
    #[verifier::type_invariant]
    spec fn consistent(&self) -> bool {
        self@.well_formed()
    }

    /// The correlation layer of a new session.
    pub fn new() -> (correlator: Correlator<T>)
        ensures
            correlator@ == CorrelatorView::<T>::empty(),
            correlator@.well_formed(),
    {
        Correlator { tables: Tables::new() }
    }

    /// Takes note of an announcement.
    ///
    /// Fails, and changes nothing, if the directory identifier is in use.
    pub fn announce(&mut self, announce: &SharedDirectoryAnnounce) -> (res: Result<
        (),
        ProtocolError,
    >)
        ensures
            match old(self)@.announce(announce.spec_directory_id()) {
                Ok(next) => res is Ok && final(self)@ == next,
                Err(e) => res == Err::<(), ProtocolError>(e) && final(self)@ == old(self)@,
            },
            final(self)@.well_formed(),
    {
        proof {
            use_type_invariant(&*self);
        }
        let directory_id = announce.directory_id();
        if self.tables.directories.contains_key(&directory_id) {
            return Err(ProtocolError::DuplicateDirectory { directory_id });
        }
        let mut tables = Tables::new();
        core::mem::swap(&mut self.tables, &mut tables);
        tables.directories.insert(directory_id, DirectoryState::Announced);
        core::mem::swap(&mut self.tables, &mut tables);
        Ok(())
    }

    /// Takes note of an acknowledgement. With the code `Nil` the directory
    /// accepts requests from now on; with any other code it never will.
    ///
    /// Fails, and changes nothing, unless the directory is announced and
    /// not acknowledged yet.
    pub fn acknowledge(&mut self, ack: &SharedDirectoryAcknowledge) -> (res: Result<
        (),
        ProtocolError,
    >)
        ensures
            match old(self)@.acknowledge(*ack) {
                Ok(next) => res is Ok && final(self)@ == next,
                Err(e) => res == Err::<(), ProtocolError>(e) && final(self)@ == old(self)@,
            },
            final(self)@.well_formed(),
    {
        proof {
            use_type_invariant(&*self);
        }
        let directory_id = ack.directory_id;
        let announced = match self.tables.directories.get(&directory_id) {
            Some(state) => *state == DirectoryState::Announced,
            None => false,
        };
        if !announced {
            return Err(ProtocolError::UnexpectedAcknowledge { directory_id });
        }
        let mut tables = Tables::new();
        core::mem::swap(&mut self.tables, &mut tables);
        tables.directories.insert(directory_id, DirectoryState::Acknowledged(ack.err_code));
        core::mem::swap(&mut self.tables, &mut tables);
        Ok(())
    }

    /// Registers `request` as pending, to be called before the request is
    /// sent. The response will be delivered with `target`.
    ///
    /// Fails, and changes nothing, if the directory of the request does not
    /// accept requests, or else if a request with the same completion
    /// identifier is pending.
    pub fn register(&mut self, request: &Request, target: T) -> (res: Result<(), ProtocolError>)
        ensures
            match old(self)@.register(Expectation::spec_of(request), target) {
                Ok(next) => res is Ok && final(self)@ == next,
                Err(e) => res == Err::<(), ProtocolError>(e) && final(self)@ == old(self)@,
            },
            final(self)@.well_formed(),
    {
        proof {
            use_type_invariant(&*self);
        }
        let expectation = Expectation::of(request);
        if !self.is_ready(expectation.directory_id) {
            return Err(ProtocolError::DirectoryNotReady { directory_id: expectation.directory_id });
        }
        if self.tables.pending.contains_key(&expectation.completion_id) {
            return Err(
                ProtocolError::DuplicateCompletionId { completion_id: expectation.completion_id },
            );
        }
        let mut tables = Tables::new();
        core::mem::swap(&mut self.tables, &mut tables);
        tables.pending.insert(expectation.completion_id, Pending { expectation, target });
        core::mem::swap(&mut self.tables, &mut tables);
        Ok(())
    }

    /// Matches `response` to the pending request with its completion
    /// identifier, and hands out the response with what was registered.
    /// The request is then no longer pending.
    ///
    /// Fails, and changes nothing, if no request is pending under that
    /// identifier, or else if the pending request expects another type of
    /// response, or else if the response reports more bytes than the
    /// request allows.
    pub fn resolve(&mut self, response: Response) -> (res: Result<Delivery<T>, ProtocolError>)
        ensures
            match old(self)@.refusal(&response) {
                Some(e) => res == Err::<Delivery<T>, ProtocolError>(e) && final(self)@ == old(
                    self,
                )@,
                None => {
                    let entry = old(self)@.pending[response.spec_completion_id()];
                    &&& res == Ok::<Delivery<T>, ProtocolError>(
                        Delivery {
                            expectation: entry.expectation,
                            target: entry.target,
                            response,
                        },
                    )
                    &&& final(self)@ == old(self)@.without(response.spec_completion_id())
                    &&& entry.expectation.completion_id == response.spec_completion_id()
                    &&& response.spec_byte_count() <= entry.expectation.byte_limit
                },
            },
            final(self)@.well_formed(),
    {
        proof {
            use_type_invariant(&*self);
        }
        let completion_id = response.completion_id();
        match self.tables.pending.get(&completion_id) {
            Some(entry) => {
                if entry.expectation.kind != response.kind() {
                    return Err(ProtocolError::UnexpectedResponseType { completion_id });
                }
                if response.byte_count() > entry.expectation.byte_limit {
                    return Err(ProtocolError::LengthExceeded { completion_id });
                }
            },
            None => {
                return Err(ProtocolError::UnknownCompletionId { completion_id });
            },
        }
        let mut tables = Tables::new();
        core::mem::swap(&mut self.tables, &mut tables);
        let removed = tables.pending.remove(&completion_id);
        core::mem::swap(&mut self.tables, &mut tables);
        match removed {
            Some(entry) => Ok(
                Delivery { expectation: entry.expectation, target: entry.target, response },
            ),
            // Not reached: the entry was found above.
            None => Err(ProtocolError::UnknownCompletionId { completion_id }),
        }
    }

    /// The state of directory `directory_id`, if it was announced.
    pub fn directory_state(&self, directory_id: u32) -> (state: Option<DirectoryState>)
        ensures
            state is Some <==> self@.directories.contains_key(directory_id),
            state matches Some(s) ==> s == self@.directories[directory_id],
    {
        match self.tables.directories.get(&directory_id) {
            Some(state) => Some(*state),
            None => None,
        }
    }

    /// Whether requests against directory `directory_id` are accepted.
    pub fn is_ready(&self, directory_id: u32) -> (ready: bool)
        ensures
            ready == self@.is_ready(directory_id),
    {
        match self.tables.directories.get(&directory_id) {
            Some(state) => state.is_ready(),
            None => false,
        }
    }

    /// Whether a request is pending under `completion_id`.
    pub fn is_pending(&self, completion_id: u32) -> (pending: bool)
        ensures
            pending == self@.pending.contains_key(completion_id),
    {
        self.tables.pending.contains_key(&completion_id)
    }

    /// What is expected of the response to the request that is pending
    /// under `completion_id`, if there is one.
    pub fn expectation(&self, completion_id: u32) -> (expectation: Option<Expectation>)
        ensures
            expectation is Some <==> self@.pending.contains_key(completion_id),
            expectation matches Some(e) ==> e == self@.pending[completion_id].expectation
                && e.completion_id == completion_id,
    {
        proof {
            use_type_invariant(self);
        }
        match self.tables.pending.get(&completion_id) {
            Some(entry) => Some(entry.expectation),
            None => None,
        }
    }

    /// The number of pending requests.
    pub fn pending_count(&self) -> (count: usize)
        ensures
            count == self@.pending.len(),
    {
        self.tables.pending.len()
    }
}

/// Every step keeps the state well formed.
pub proof fn lemma_steps_keep_well_formed<T>(
    state: CorrelatorView<T>,
    directory_id: u32,
    ack: SharedDirectoryAcknowledge,
    expectation: Expectation,
    target: T,
    completion_id: u32,
)
    requires
        state.well_formed(),
    ensures
        CorrelatorView::<T>::empty().well_formed(),
        state.announce(directory_id) matches Ok(next) ==> next.well_formed(),
        state.acknowledge(ack) matches Ok(next) ==> next.well_formed(),
        state.register(expectation, target) matches Ok(next) ==> next.well_formed(),
        state.without(completion_id).well_formed(),
{
}

/// A response is matched to the request that was registered under its
/// completion identifier: what is delivered with it is what that request
/// registered, and the table is then as it was before the request.
pub proof fn lemma_round_trip<T>(
    state: CorrelatorView<T>,
    expectation: Expectation,
    target: T,
    response: Response,
)
    requires
        state.register(expectation, target) is Ok,
        response.spec_completion_id() == expectation.completion_id,
    ensures
        ({
            let sent = state.register(expectation, target)->Ok_0;
            let entry = sent.pending[response.spec_completion_id()];
            &&& entry == Pending { expectation, target }
            &&& entry.expectation.completion_id == response.spec_completion_id()
            &&& sent.refusal(&response) is None <==> expectation.spec_admits(&response)
            &&& sent.without(response.spec_completion_id()) == state
        }),
{
    let sent = state.register(expectation, target)->Ok_0;
    assert(sent.without(response.spec_completion_id()).pending =~= state.pending);
}

/// In a well-formed state, whatever is delivered with a response was
/// registered under the completion identifier of that response, against a
/// directory that accepts requests, and allows the bytes that the response
/// reports.
pub proof fn lemma_delivery_matches<T>(state: CorrelatorView<T>, response: Response)
    requires
        state.well_formed(),
        state.refusal(&response) is None,
    ensures
        ({
            let entry = state.pending[response.spec_completion_id()];
            &&& entry.expectation.completion_id == response.spec_completion_id()
            &&& entry.expectation.kind == response.spec_kind()
            &&& response.spec_byte_count() <= entry.expectation.byte_limit
            &&& state.is_ready(entry.expectation.directory_id)
        }),
{
}

/// While a request is pending, a second request with its completion
/// identifier is rejected.
pub proof fn lemma_duplicate_completion_id_rejected<T>(
    state: CorrelatorView<T>,
    first: Expectation,
    first_target: T,
    second: Expectation,
    second_target: T,
)
    requires
        state.register(first, first_target) is Ok,
        second.completion_id == first.completion_id,
    ensures
        ({
            let sent = state.register(first, first_target)->Ok_0;
            &&& sent.register(second, second_target) is Err
            &&& sent.is_ready(second.directory_id) ==> sent.register(second, second_target)
                == Err::<CorrelatorView<T>, ProtocolError>(
                ProtocolError::DuplicateCompletionId { completion_id: second.completion_id },
            )
        }),
{
}

/// A response whose completion identifier no pending request has is
/// reported as such; so is the second of two responses with the same
/// identifier.
pub proof fn lemma_unknown_completion_id_reported<T>(state: CorrelatorView<T>, response: Response)
    ensures
        !state.pending.contains_key(response.spec_completion_id()) ==> state.refusal(&response)
            == Some(
            ProtocolError::UnknownCompletionId { completion_id: response.spec_completion_id() },
        ),
        state.without(response.spec_completion_id()).refusal(&response) == Some(
            ProtocolError::UnknownCompletionId { completion_id: response.spec_completion_id() },
        ),
{
}

/// A request is accepted only against a directory that was acknowledged
/// with success, and such a directory comes about only by acknowledging an
/// announced directory with the code `Nil`.
pub proof fn lemma_only_ready_directories_accept<T>(
    state: CorrelatorView<T>,
    expectation: Expectation,
    target: T,
    ack: SharedDirectoryAcknowledge,
)
    ensures
        state.register(expectation, target) is Ok ==> state.directories.contains_key(
            expectation.directory_id,
        ) && state.directories[expectation.directory_id] == DirectoryState::Acknowledged(
            TdpErrCode::Nil,
        ),
        state.acknowledge(ack) matches Ok(next) ==> (next.is_ready(ack.directory_id)
            <==> ack.err_code == TdpErrCode::Nil) && !state.is_ready(ack.directory_id),
        state.announce(expectation.directory_id) matches Ok(next) ==> !next.is_ready(
            expectation.directory_id,
        ),
{
}

/// The response to a write that is delivered never counts more bytes than
/// the request carried, and the response to a read never returns more
/// bytes than the request asked for. Fewer are in order.
pub proof fn lemma_delivered_bytes_bounded<T>(
    state: CorrelatorView<T>,
    request: Request,
    target: T,
    response: Response,
)
    requires
        state.register(Expectation::spec_of(&request), target) is Ok,
        response.spec_completion_id() == request.spec_completion_id(),
        state.register(Expectation::spec_of(&request), target)->Ok_0.refusal(&response) is None,
    ensures
        response.spec_kind() == request.spec_kind(),
        request matches Request::Write(w) ==> response matches Response::Write(r)
            && r.bytes_written <= w.write_data@.len(),
        request matches Request::Read(q) ==> response matches Response::Read(r)
            && r.read_data@.len() <= q.length,
{
}

} // verus!
