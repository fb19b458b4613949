//! One operation of the facade as a sequence of native requests.
//!
//! An operation names the request that it waits for; whoever performs
//! requests hands the reply back and gets the operation in its next state,
//! until no request is left and the operation holds its result. The
//! operation decides from the replies alone: it interprets statuses, decodes
//! what the native side returned, and asks for the release of every buffer
//! that the native side allocated before it ends.

use vstd::prelude::*;
use vstd::string::StringExecFns;
use crate::configuration::{DistroConfiguration, DistroConfigurationView};
use crate::error::{DecodeFailure, Error, ErrorView};
use crate::flags::{flags_of_bits, DistroFlags};
use crate::narrow_chars::{decode_narrow, narrow_text};
use crate::native::{NativeReply, NativeReplyView, NativeRequest, NativeRequestView};
use crate::render::texts;
use crate::wide_chars::{to_vec_u16, wide};

verus! {

/// What an operation that succeeded returns.
#[derive(Clone, Debug, PartialEq, Eq)]
pub enum Outcome {
    /// A registration, a removal or a reconfiguration took place.
    Done,
    /// The settings of the distro.
    Configuration(DistroConfiguration),
    /// The exit code of the launched process.
    ExitCode(u32),
    /// Whether the name is registered.
    Registered(bool),
}

/// An `Outcome` with its texts as sequences of characters.
pub enum OutcomeView {
    Done,
    Configuration(DistroConfigurationView),
    ExitCode(u32),
    Registered(bool),
}

impl View for Outcome {
    type V = OutcomeView;

    open spec fn view(&self) -> OutcomeView {
        match self {
            Outcome::Done => OutcomeView::Done,
            Outcome::Configuration(configuration) => OutcomeView::Configuration(configuration@),
            Outcome::ExitCode(code) => OutcomeView::ExitCode(*code),
            Outcome::Registered(registered) => OutcomeView::Registered(*registered),
        }
    }
}

/// What a configuration query reported, and what has been decoded of the
/// array that it returned.
pub struct QueryView {
    pub name: Seq<char>,
    pub version: u32,
    pub default_uid: u32,
    pub wsl_flags: u32,
    /// The number of elements of the array.
    pub count: u32,
    /// The elements decoded so far, in the order of the array.
    pub variables: Seq<Seq<char>>,
    /// Why the element after those could not be decoded.
    pub failure: Option<DecodeFailure>,
}

/// The state of an operation.
pub enum OperationView {
    /// One request is waited for, and its reply ends the operation.
    Calling { request: NativeRequestView },
    /// The configuration query for `name` is waited for.
    Querying { name: Seq<char> },
    /// The next element of the array is waited for. Nothing of the array has
    /// been released.
    Reading { query: QueryView },
    /// All that will be read has been read; the release of element
    /// `released`, or of the array after its last element, is waited for.
    Releasing { query: QueryView, released: u32 },
    /// Nothing is waited for.
    Finished { result: Result<OutcomeView, ErrorView> },
}

/// Success for the status zero, and the status as the error for any other.
pub open spec fn status_result(status: i32, outcome: OutcomeView) -> Result<OutcomeView, ErrorView> {
    if status == 0 {
        Ok(outcome)
    } else {
        Err(ErrorView::NativeStatusError { code: status })
    }
}

impl QueryView {
    /// The state after an element was read, or when the array has none:
    /// reading goes on while elements are left, then the release begins at
    /// the first element.
    pub open spec fn proceed(self) -> OperationView {
        if self.variables.len() < self.count {
            OperationView::Reading { query: self }
        } else {
            OperationView::Releasing { query: self, released: 0 }
        }
    }

    /// The result of the query once everything is released: the failure to
    /// decode an element, else the failure to decode the flags, else the
    /// record.
    pub open spec fn assemble(self) -> Result<OutcomeView, ErrorView> {
        match self.failure {
            Some(failure) => Err(ErrorView::DecodeError(failure)),
            None => match flags_of_bits(self.wsl_flags) {
                None => Err(ErrorView::DecodeError(DecodeFailure::UnknownFlags)),
                Some(flags) => Ok(
                    OutcomeView::Configuration(
                        DistroConfigurationView {
                            name: self.name,
                            version: self.version,
                            default_uid: self.default_uid,
                            flags,
                            default_environment_variables: self.variables,
                        },
                    ),
                ),
            },
        }
    }
}

impl OperationView {
    /// What holds of every state that an operation reaches.
    pub open spec fn wf(self) -> bool {
        match self {
            OperationView::Calling { request } => {
                ||| request is RegisterDistribution
                ||| request is UnregisterDistribution
                ||| request is ConfigureDistribution
                ||| request is LaunchInteractive
                ||| request is IsDistributionRegistered
            },
            OperationView::Querying { .. } => true,
            OperationView::Reading { query } => {
                &&& query.variables.len() < query.count
                &&& query.failure is None
            },
            OperationView::Releasing { query, released } => {
                &&& query.variables.len() <= query.count
                &&& released <= query.count
            },
            OperationView::Finished { .. } => true,
        }
    }

    /// The request that the operation waits for; none once it has ended.
    pub open spec fn pending(self) -> Option<NativeRequestView> {
        match self {
            OperationView::Calling { request } => Some(request),
            OperationView::Querying { name } => Some(
                NativeRequestView::GetDistributionConfiguration { distro_name: wide(name) },
            ),
            OperationView::Reading { query } => Some(
                NativeRequestView::ReadVariable { index: query.variables.len() as u32 },
            ),
            OperationView::Releasing { query, released } => Some(
                if released < query.count {
                    NativeRequestView::FreeVariable { index: released }
                } else {
                    NativeRequestView::FreeVariables
                },
            ),
            OperationView::Finished { .. } => None,
        }
    }

    /// Whether `reply` answers the request that the operation waits for.
    pub open spec fn accepts(self, reply: NativeReplyView) -> bool {
        match self.pending() {
            Some(request) => request.answered_by(reply),
            None => false,
        }
    }

    /// The state after `reply`. A reply that does not answer the pending
    /// request changes nothing.
    pub open spec fn step(self, reply: NativeReplyView) -> OperationView {
        if !self.accepts(reply) {
            self
        } else {
            match reply {
                NativeReplyView::Unresolved { reason } => OperationView::Finished {
                    result: Err(
                        ErrorView::SymbolError {
                            export: self.pending().unwrap().export().unwrap(),
                            reason,
                        },
                    ),
                },
                NativeReplyView::Status(status) => OperationView::Finished {
                    result: status_result(status, OutcomeView::Done),
                },
                NativeReplyView::Launched { status, exit_code } => OperationView::Finished {
                    result: status_result(status, OutcomeView::ExitCode(exit_code)),
                },
                NativeReplyView::Registered(registered) => OperationView::Finished {
                    result: Ok(OutcomeView::Registered(registered)),
                },
                NativeReplyView::Configuration {
                    status,
                    version,
                    default_uid,
                    wsl_flags,
                    count,
                } => if status != 0 {
                    OperationView::Finished {
                        result: Err(ErrorView::NativeStatusError { code: status }),
                    }
                } else {
                    (QueryView {
                        name: self->name,
                        version,
                        default_uid,
                        wsl_flags,
                        count,
                        variables: Seq::empty(),
                        failure: None,
                    }).proceed()
                },
                NativeReplyView::Variable(bytes) => match decode_narrow(bytes) {
                    Ok(text) => (QueryView {
                        variables: self->Reading_query.variables.push(text),
                        ..self->Reading_query
                    }).proceed(),
                    Err(failure) => OperationView::Releasing {
                        query: QueryView { failure: Some(failure), ..self->Reading_query },
                        released: 0,
                    },
                },
                NativeReplyView::Freed => if self->released < self->Releasing_query.count {
                    OperationView::Releasing {
                        query: self->Releasing_query,
                        released: (self->released + 1) as u32,
                    }
                } else {
                    OperationView::Finished { result: self->Releasing_query.assemble() }
                },
            }
        }
    }
}

/// What a configuration query reported, and what has been decoded of the
/// array that it returned.
#[derive(Debug)]
struct Query {
    name: String,
    version: u32,
    default_uid: u32,
    wsl_flags: u32,
    count: u32,
    variables: Vec<String>,
    failure: Option<DecodeFailure>,
}

impl View for Query {
    type V = QueryView;

    closed spec fn view(&self) -> QueryView {
        QueryView {
            name: self.name@,
            version: self.version,
            default_uid: self.default_uid,
            wsl_flags: self.wsl_flags,
            count: self.count,
            variables: texts(self.variables@),
            failure: self.failure,
        }
    }
}

/// The state of an operation, each with the request that it waits for.
#[derive(Debug)]
enum State {
    Calling { request: NativeRequest },
    Querying { request: NativeRequest, name: String },
    Reading { request: NativeRequest, query: Query },
    Releasing { request: NativeRequest, query: Query, released: u32 },
    Finished { result: Result<Outcome, Error> },
}

impl View for State {
    type V = OperationView;

    closed spec fn view(&self) -> OperationView {
        match self {
            State::Calling { request } => OperationView::Calling { request: request@ },
            State::Querying { name, .. } => OperationView::Querying { name: name@ },
            State::Reading { query, .. } => OperationView::Reading { query: query@ },
            State::Releasing { query, released, .. } => OperationView::Releasing {
                query: query@,
                released: *released,
            },
            State::Finished { result } => OperationView::Finished {
                result: match result {
                    Ok(outcome) => Ok(outcome@),
                    Err(error) => Err(error@),
                },
            },
        }
    }
}

impl State {
    /// The request that the state holds; none once the operation has ended.
    closed spec fn held(&self) -> Option<NativeRequestView> {
        match self {
            State::Calling { request } => Some(request@),
            State::Querying { request, .. } => Some(request@),
            State::Reading { request, .. } => Some(request@),
            State::Releasing { request, .. } => Some(request@),
            State::Finished { .. } => None,
        }
    }
}

/// One operation of the facade, under way or ended.
#[derive(Debug)]
pub struct Operation {
    state: State,
}

impl View for Operation {
    type V = OperationView;

    closed spec fn view(&self) -> OperationView {
        self.state@
    }
}

/// Success for the status zero, and the status as the error for any other.
fn interpret_status(status: i32, outcome: Outcome) -> (result: Result<Outcome, Error>)
    ensures
        result_view(result) == status_result(status, outcome@),
{
    if status == 0 {
        Ok(outcome)
    } else {
        Err(Error::NativeStatusError { code: status })
    }
}

/// A result with its outcome or its error as a view.
pub open spec fn result_view(result: Result<Outcome, Error>) -> Result<OutcomeView, ErrorView> {
    match result {
        Ok(outcome) => Ok(outcome@),
        Err(error) => Err(error@),
    }
}

impl Query {
    /// The request for the release that comes after `released` elements.
    fn release_request(&self, released: u32) -> (request: NativeRequest)
        ensures
            Some(request@) == (OperationView::Releasing { query: self@, released }).pending(),
    {
        if released < self.count {
            NativeRequest::FreeVariable { index: released }
        } else {
            NativeRequest::FreeVariables
        }
    }

    /// The result of the query once everything is released.
    fn assemble(self) -> (result: Result<Outcome, Error>)
        ensures
            result_view(result) == self@.assemble(),
    {
        match self.failure {
            Some(failure) => Err(Error::DecodeError(failure)),
            None => match DistroFlags::from_bits(self.wsl_flags) {
                None => Err(Error::DecodeError(DecodeFailure::UnknownFlags)),
                Some(flags) => Ok(
                    Outcome::Configuration(
                        DistroConfiguration {
                            name: self.name,
                            version: self.version,
                            default_uid: self.default_uid,
                            flags,
                            default_environment_variables: self.variables,
                        },
                    ),
                ),
            },
        }
    }
}

impl Operation {
    /// The state is one that an operation reaches, and holds the request
    /// that such a state waits for.
    #[verifier::type_invariant]
    closed spec fn inv(self) -> bool {
        &&& self.state@.wf()
        &&& self.state.held() == self.state@.pending()
        &&& self.state matches State::Reading { query, .. } ==> query.variables@.len()
            < query.count
    }

    /// The state of an operation that has ended with `result`.
    fn finished(result: Result<Outcome, Error>) -> (op: Operation)
        ensures
            op@ == (OperationView::Finished { result: result_view(result) }),
    {
        Operation { state: State::Finished { result } }
    }

    /// The state after an element was read, or when the array has none.
    fn proceed(query: Query) -> (op: Operation)
        requires
            query.variables@.len() <= query.count,
            query.failure is None,
        ensures
            op@ == query@.proceed(),
    {
        if query.variables.len() < query.count as usize {
            let index: u32 = query.variables.len() as u32;
            let request = NativeRequest::ReadVariable { index };
            Operation { state: State::Reading { request, query } }
        } else {
            Operation::releasing(query, 0)
        }
    }

    /// The state in which `released` elements have been released.
    fn releasing(query: Query, released: u32) -> (op: Operation)
        requires
            query.variables@.len() <= query.count,
            released <= query.count,
        ensures
            op@ == (OperationView::Releasing { query: query@, released }),
    {
        let request = query.release_request(released);
        Operation { state: State::Releasing { request, query, released } }
    }

    /// An operation that makes one call and ends with its reply.
    pub(crate) fn calling(request: NativeRequest) -> (op: Operation)
        requires
            (OperationView::Calling { request: request@ }).wf(),
        ensures
            op@ == (OperationView::Calling { request: request@ }),
    {
        Operation { state: State::Calling { request } }
    }

    /// The query for the settings of `distro_name`.
    pub(crate) fn querying(distro_name: &str) -> (op: Operation)
        ensures
            op@ == (OperationView::Querying { name: distro_name@ }),
    {
        let request = NativeRequest::GetDistributionConfiguration {
            distro_name: to_vec_u16(distro_name),
        };
        Operation { state: State::Querying { request, name: String::from_str(distro_name) } }
    }

    /// The request to perform next; none once the operation has ended.
    pub fn request(&self) -> (request: Option<&NativeRequest>)
        ensures
            match request {
                Some(request) => self@.pending() == Some(request@),
                None => self@.pending() is None,
            },
            self@.wf(),
    {
        proof {
            use_type_invariant(self);
        }
        match &self.state {
            State::Calling { request } => Some(request),
            State::Querying { request, .. } => Some(request),
            State::Reading { request, .. } => Some(request),
            State::Releasing { request, .. } => Some(request),
            State::Finished { .. } => None,
        }
    }

    /// Whether `reply` answers the request that the operation waits for.
    pub fn accepts(&self, reply: &NativeReply) -> (accepted: bool)
        ensures
            accepted == self@.accepts(reply@),
    {
        match self.request() {
            Some(request) => request.answered_by(reply),
            None => false,
        }
    }

    /// Whether the operation has ended.
    pub fn is_finished(&self) -> (finished: bool)
        ensures
            finished == (self@ is Finished),
            finished == (self@.pending() is None),
    {
        match &self.state {
            State::Finished { .. } => true,
            _ => false,
        }
    }

    /// Takes the reply to the pending request and gives the operation in its
    /// next state. A reply that does not answer the pending request changes
    /// nothing.
    pub fn advance(self, reply: NativeReply) -> (next: Operation)
        ensures
            next@ == self@.step(reply@),
    {
        proof {
            use_type_invariant(&self);
        }
        if !self.accepts(&reply) {
            return self;
        }
        match reply {
            NativeReply::Unresolved { reason } => {
                let export = match self.request() {
                    Some(request) => request.export(),
                    None => None,
                };
                match export {
                    Some(export) => Operation::finished(
                        Err(Error::SymbolError { export, reason }),
                    ),
                    None => self,
                }
            },
            NativeReply::Status(status) => {
                Operation::finished(interpret_status(status, Outcome::Done))
            },
            NativeReply::Launched { status, exit_code } => {
                Operation::finished(interpret_status(status, Outcome::ExitCode(exit_code)))
            },
            NativeReply::Registered(registered) => {
                Operation::finished(Ok(Outcome::Registered(registered)))
            },
            NativeReply::Configuration { status, version, default_uid, wsl_flags, count } => {
                if status != 0 {
                    Operation::finished(Err(Error::NativeStatusError { code: status }))
                } else {
                    match self.state {
                        State::Querying { name, .. } => {
                            let query = Query {
                                name,
                                version,
                                default_uid,
                                wsl_flags,
                                count,
                                variables: Vec::new(),
                                failure: None,
                            };
                            assert(texts(query.variables@) =~= Seq::empty());
                            Operation::proceed(query)
                        },
                        state => Operation { state },
                    }
                }
            },
            NativeReply::Variable(bytes) => match self.state {
                State::Reading { query, .. } => {
                    let decoded = match &bytes {
                        Some(bytes) => narrow_text(Some(bytes.as_slice())),
                        None => narrow_text(None),
                    };
                    let mut query = query;
                    let ghost read = query.variables@;
                    match decoded {
                        Ok(text) => {
                            let ghost added = text@;
                            query.variables.push(text);
                            assert(texts(query.variables@) =~= texts(read).push(added));
                            Operation::proceed(query)
                        },
                        Err(failure) => {
                            query.failure = Some(failure);
                            Operation::releasing(query, 0)
                        },
                    }
                },
                state => Operation { state },
            },
            NativeReply::Freed => match self.state {
                State::Releasing { query, released, .. } => {
                    if released < query.count {
                        Operation::releasing(query, released + 1)
                    } else {
                        Operation::finished(query.assemble())
                    }
                },
                state => Operation { state },
            },
        }
    }

    /// The result of the operation; none while a request is waited for.
    pub fn into_result(self) -> (result: Option<Result<Outcome, Error>>)
        ensures
            match result {
                Some(result) => self@ == (OperationView::Finished { result: result_view(result) }),
                None => !(self@ is Finished),
            },
    {
        match self.state {
            State::Finished { result } => Some(result),
            _ => None,
        }
    }
}

} // verus!
