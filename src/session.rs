//! The session: sign-in, resource operations, and release of the token.
//!
//! The session never touches the network. Each method returns a [`Step`]: a
//! request for the host to send, after which the host hands the reply to
//! [`Timeular::on_reply`], or the end of the operation with its result.
use crate::auth::TimeularAuth;
use crate::color::{color_code, create_random_color};
use crate::data::{is_sole_default, lemma_sole_default_id, sole_default_id, SpaceListResponse};
use crate::error::Error;
use crate::transport::{
    activities_path, fetching_spaces, is_activity_creation, is_login, is_logout, is_space_listing,
    is_success, is_tag_creation, received, sent_for, standard, Payload, Reply, Request, Sent, Shape,
    TimeularHttpClient,
};
use vstd::prelude::*;

verus! {

/// What an operation will create, once its space is known.
#[derive(Debug, Clone, PartialEq, Eq)]
pub enum Draft {
    Activity { name: String, color: String },
    Tag { label: String, key: Option<String> },
}

/// Where a session stands. The stages that wait for a reply keep what was
/// sent.
#[derive(Debug, Clone, PartialEq, Eq)]
pub enum Stage {
    /// The sign-in call is out.
    Authenticating(Sent),
    /// Authenticated and idle.
    Ready,
    /// The spaces are being listed, to find the default one for the draft.
    ResolvingSpace(Draft, Sent),
    /// The spaces are being listed for the caller.
    ListingSpaces(Sent),
    /// The call that creates an activity is out.
    CreatingActivity(Sent),
    /// The call that creates a tag is out.
    CreatingTag(Sent),
    /// The logout call is out.
    Releasing(Sent),
    /// Over: released, or never authenticated.
    Released,
}

/// The result of a finished operation.
#[derive(Debug, Clone, PartialEq, Eq)]
pub enum Outcome {
    /// The session holds a token.
    Authenticated,
    /// The id and name of the new activity.
    ActivityCreated { id: String, name: String },
    /// The id of the new tag.
    TagCreated(i64),
    /// All spaces of the account.
    SpacesListed(SpaceListResponse),
    /// The session is over. A failed logout is kept here for diagnostics only.
    Released { logout_failure: Option<Error> },
}

/// What the host is to do next.
#[derive(Debug, PartialEq, Eq)]
pub enum Step {
    /// Send the request and hand the reply to `on_reply`.
    Call(Request),
    /// The operation is over.
    Done(Result<Outcome, Error>),
}

/// A session: the client configuration, the credentials with the token once
/// obtained, and the stage.
pub struct Timeular {
    client: TimeularHttpClient,
    auth_data: TimeularAuth,
    stage: Stage,
}

impl Timeular {
    pub closed spec fn client(&self) -> TimeularHttpClient {
        self.client
    }

    pub closed spec fn auth(&self) -> TimeularAuth {
        self.auth_data
    }

    pub closed spec fn stage(&self) -> Stage {
        self.stage
    }
}

/// The stage waits for the reply to a call.
pub open spec fn awaits_reply(s: Stage) -> bool {
    !(s is Ready || s is Released)
}

/// An operation may start: the session is authenticated, idle, and holds a token.
pub open spec fn ready(s: Timeular) -> bool {
    s.stage() is Ready && s.auth().token is Some
}

/// `c` is the colour given, or a generated colour code where none is.
pub open spec fn color_chosen(color: Option<String>, c: String) -> bool {
    match color {
        Some(x) => c == x,
        None => exists|r: u8, g: u8, b: u8| c@ == color_code(r, g, b),
    }
}

/// Opening a session from `auth` gave `s` and `step`: a known token is reused
/// without a call; otherwise valid credentials lead to the one sign-in call,
/// and credentials with a field missing fail at once.
pub open spec fn opened(auth: TimeularAuth, s: Timeular, step: Step) -> bool {
    &&& standard(s.client())
    &&& s.auth() == auth
    &&& match auth.token {
        Some(_) => s.stage() is Ready && step == Step::Done(Ok(Outcome::Authenticated)),
        None => if auth.credentials.valid() {
            step matches Step::Call(req) && is_login(
                s.client(),
                req,
                auth.credentials.api_key,
                auth.credentials.api_secret,
            ) && s.stage() == Stage::Authenticating(sent_for(req))
        } else {
            s.stage() is Released && step == Step::Done(Err(Error::MissingAuthentication))
        },
    }
}

/// The create call for `draft` in the space `space_id` went out with the
/// token of `s0`.
pub open spec fn creation_issued(
    s0: Timeular,
    draft: Draft,
    space_id: String,
    s1: Timeular,
    step: Step,
) -> bool {
    match s0.auth().token {
        None => s1.stage() is Ready && step == Step::Done(Err(Error::MissingAuthentication)),
        Some(t) => step matches Step::Call(req) && match draft {
            Draft::Activity { name, color } => is_activity_creation(
                s0.client(),
                req,
                t@,
                name,
                color,
                space_id,
            ) && s1.stage() == Stage::CreatingActivity(sent_for(req)),
            Draft::Tag { label, key } => is_tag_creation(s0.client(), req, t@, label, key, space_id)
                && s1.stage() == Stage::CreatingTag(sent_for(req)),
        },
    }
}

/// An operation for `draft` started on the ready session `s0`: with a space
/// given, its create call went out; without, the listing of the spaces.
pub open spec fn started(
    s0: Timeular,
    draft: Draft,
    space_id: Option<String>,
    s1: Timeular,
    step: Step,
) -> bool {
    &&& s1.client() == s0.client()
    &&& s1.auth() == s0.auth()
    &&& match space_id {
        Some(x) => creation_issued(s0, draft, x, s1, step),
        None => step matches Step::Call(req) && is_space_listing(
            s0.client(),
            req,
            s0.auth().token->Some_0@,
        ) && s1.stage() == Stage::ResolvingSpace(draft, sent_for(req)),
    }
}

/// An operation on a session that is not ready made no call and failed.
pub open spec fn refused(s0: Timeular, s1: Timeular, step: Step) -> bool {
    &&& s1 == s0
    &&& step == Step::Done(Err(Error::MissingAuthentication))
}

/// `s0` took `reply` to the call it waited for, giving `s1` and `step`.
pub open spec fn replied(s0: Timeular, reply: Reply, s1: Timeular, step: Step) -> bool {
    &&& s1.client() == s0.client()
    &&& s1.auth().credentials == s0.auth().credentials
    &&& match s0.stage() {
        Stage::Authenticating(sent) => match received(sent, Shape::Token, reply) {
            Ok(p) => p matches Payload::Token(t) && s1.auth().token == Some(t.token)
                && s1.stage() is Ready && step == Step::Done(Ok(Outcome::Authenticated)),
            Err(e) => s1.auth() == s0.auth() && s1.stage() is Released && step == Step::Done(
                Err(e),
            ),
        },
        Stage::ResolvingSpace(draft, sent) => s1.auth() == s0.auth() && match received(
            sent,
            Shape::Spaces,
            reply,
        ) {
            Err(e) => s1.stage() is Ready && step == Step::Done(Err(e)),
            Ok(p) => p matches Payload::Spaces(list) && match sole_default_id(list.data@) {
                None => s1.stage() is Ready && step == Step::Done(Err(Error::NoDefaultSpace)),
                Some(id) => creation_issued(s0, draft, id, s1, step),
            },
        },
        Stage::ListingSpaces(sent) => s1.auth() == s0.auth() && s1.stage() is Ready && match received(
            sent,
            Shape::Spaces,
            reply,
        ) {
            Err(e) => step == Step::Done(Err(e)),
            Ok(p) => p matches Payload::Spaces(list) && step == Step::Done(
                Ok(Outcome::SpacesListed(list)),
            ),
        },
        Stage::CreatingActivity(sent) => s1.auth() == s0.auth() && s1.stage() is Ready && match received(
            sent,
            Shape::Activity,
            reply,
        ) {
            Err(e) => step == Step::Done(Err(e)),
            Ok(p) => p matches Payload::Activity(a) && step == Step::Done(
                Ok(Outcome::ActivityCreated { id: a.id, name: a.name }),
            ),
        },
        Stage::CreatingTag(sent) => s1.auth() == s0.auth() && s1.stage() is Ready && match received(
            sent,
            Shape::Tag,
            reply,
        ) {
            Err(e) => step == Step::Done(Err(e)),
            Ok(p) => p matches Payload::Tag(t) && step == Step::Done(Ok(Outcome::TagCreated(t.id))),
        },
        Stage::Releasing(sent) => s1.auth() == s0.auth() && s1.stage() is Released && step
            == Step::Done(
            Ok(
                Outcome::Released {
                    logout_failure: match received(sent, Shape::Nothing, reply) {
                        Err(e) => Some(e),
                        Ok(_) => None,
                    },
                },
            ),
        ),
        Stage::Ready => false,
        Stage::Released => false,
    }
}

/// Releasing `s0` gave `s1` and `step`: where a token was obtained and not yet
/// released, the one logout call goes out; otherwise the session is over at once.
pub open spec fn released(s0: Timeular, s1: Timeular, step: Step) -> bool {
    &&& s1.client() == s0.client()
    &&& s1.auth() == s0.auth()
    &&& if !(s0.stage() is Released || s0.stage() is Releasing) && s0.auth().token is Some {
        step matches Step::Call(req) && is_logout(s0.client(), req, s0.auth().token->Some_0@)
            && s1.stage() == Stage::Releasing(sent_for(req))
    } else {
        s1.stage() is Released && step == Step::Done(
            Ok(Outcome::Released { logout_failure: None }),
        )
    }
}

impl Timeular {
    /// Opens a session. A known token is reused; otherwise the credentials
    /// must have both fields, and the sign-in call goes out.
    pub fn new(auth_data: TimeularAuth) -> (r: (Timeular, Step))
        ensures
            opened(auth_data, r.0, r.1),
    {
        let client = TimeularHttpClient::new();
        if auth_data.token.is_some() {
            (Timeular { client, auth_data, stage: Stage::Ready }, Step::Done(Ok(Outcome::Authenticated)))
        } else if auth_data.credentials.is_valid() {
            let req = client.login(
                auth_data.credentials.api_key.clone(),
                auth_data.credentials.api_secret.clone(),
            );
            let sent = req.sent();
            (Timeular { client, auth_data, stage: Stage::Authenticating(sent) }, Step::Call(req))
        } else {
            (
                Timeular { client, auth_data, stage: Stage::Released },
                Step::Done(Err(Error::MissingAuthentication)),
            )
        }
    }

    /// The session waits for the reply to a call.
    pub fn is_waiting(&self) -> (r: bool)
        ensures
            r == awaits_reply(self.stage()),
    {
        match self.stage {
            Stage::Ready => false,
            Stage::Released => false,
            _ => true,
        }
    }

    /// The client configuration that the session's requests are built with.
    pub fn config(&self) -> (r: &TimeularHttpClient)
        ensures
            *r == self.client(),
    {
        &self.client
    }

    /// The token, once obtained.
    pub fn token(&self) -> (r: Option<&String>)
        ensures
            r == match self.auth().token {
                Some(t) => Some(&t),
                None => None::<&String>,
            },
    {
        match &self.auth_data.token {
            Some(t) => Some(t),
            None => None,
        }
    }

    fn is_ready(&self) -> (r: bool)
        ensures
            r == ready(*self),
    {
        match self.stage {
            Stage::Ready => self.auth_data.token.is_some(),
            _ => false,
        }
    }

    /// Sends the create call for `draft`, with the session's token.
    fn issue_creation(&mut self, draft: Draft, space_id: String) -> (step: Step)
        ensures
            final(self).client() == old(self).client(),
            final(self).auth() == old(self).auth(),
            creation_issued(*old(self), draft, space_id, *final(self), step),
    {
        match &self.auth_data.token {
            None => {
                self.stage = Stage::Ready;
                Step::Done(Err(Error::MissingAuthentication))
            },
            Some(t) => match draft {
                Draft::Activity { name, color } => {
                    let req = self.client.create_activity(t.as_str(), name, color, space_id);
                    self.stage = Stage::CreatingActivity(req.sent());
                    Step::Call(req)
                },
                Draft::Tag { label, key } => {
                    let req = self.client.create_tag(t.as_str(), label, key, space_id);
                    self.stage = Stage::CreatingTag(req.sent());
                    Step::Call(req)
                },
            },
        }
    }

    /// Starts an operation on a ready session: the create call where the space
    /// is given, else the listing of the spaces.
    fn start(&mut self, draft: Draft, space_id: Option<String>) -> (step: Step)
        requires
            ready(*old(self)),
        ensures
            started(*old(self), draft, space_id, *final(self), step),
    {
        match space_id {
            Some(x) => self.issue_creation(draft, x),
            None => match &self.auth_data.token {
                Some(t) => {
                    let req = self.client.list_spaces(t.as_str());
                    self.stage = Stage::ResolvingSpace(draft, req.sent());
                    Step::Call(req)
                },
                None => Step::Done(Err(Error::MissingAuthentication)),
            },
        }
    }

    /// Creates an activity. Without a colour, one is drawn at random; without a
    /// space, the default space is looked up first. A session that is not
    /// ready fails with `MissingAuthentication` and makes no call.
    pub fn create_activity(
        &mut self,
        name: String,
        color: Option<String>,
        space_id: Option<String>,
    ) -> (step: Step)
        ensures
            if ready(*old(self)) {
                exists|c: String|
                    color_chosen(color, c) && #[trigger] started(
                        *old(self),
                        Draft::Activity { name, color: c },
                        space_id,
                        *final(self),
                        step,
                    )
            } else {
                refused(*old(self), *final(self), step)
            },
    {
        if !self.is_ready() {
            return Step::Done(Err(Error::MissingAuthentication));
        }
        let c = match color {
            Some(c) => c,
            None => create_random_color(),
        };
        let ghost chosen = c;
        let step = self.start(Draft::Activity { name, color: c }, space_id);
        assert(color_chosen(color, chosen));
        step
    }

    /// Creates a tag. Without a space, the default space is looked up first. A
    /// session that is not ready fails with `MissingAuthentication` and makes
    /// no call.
    pub fn create_tag(&mut self, label: String, key: Option<String>, space_id: Option<String>) -> (step:
        Step)
        ensures
            if ready(*old(self)) {
                started(*old(self), Draft::Tag { label, key }, space_id, *final(self), step)
            } else {
                refused(*old(self), *final(self), step)
            },
    {
        if !self.is_ready() {
            return Step::Done(Err(Error::MissingAuthentication));
        }
        self.start(Draft::Tag { label, key }, space_id)
    }

    /// Lists all spaces of the account. A session that is not ready fails with
    /// `MissingAuthentication` and makes no call.
    pub fn list_spaces(&mut self) -> (step: Step)
        ensures
            if ready(*old(self)) {
                &&& final(self).client() == old(self).client()
                &&& final(self).auth() == old(self).auth()
                &&& step matches Step::Call(req) && is_space_listing(
                    old(self).client(),
                    req,
                    old(self).auth().token->Some_0@,
                ) && final(self).stage() == Stage::ListingSpaces(sent_for(req))
            } else {
                refused(*old(self), *final(self), step)
            },
    {
        if !self.is_ready() {
            return Step::Done(Err(Error::MissingAuthentication));
        }
        match &self.auth_data.token {
            Some(t) => {
                let req = self.client.list_spaces(t.as_str());
                self.stage = Stage::ListingSpaces(req.sent());
                Step::Call(req)
            },
            None => Step::Done(Err(Error::MissingAuthentication)),
        }
    }

    /// Takes the reply to the call the session waits for.
    pub fn on_reply(&mut self, reply: Reply) -> (step: Step)
        requires
            awaits_reply(old(self).stage()),
        ensures
            replied(*old(self), reply, *final(self), step),
    {
        let mut stage = Stage::Released;
        std::mem::swap(&mut stage, &mut self.stage);
        match stage {
            Stage::Authenticating(sent) => match TimeularHttpClient::receive(&sent, Shape::Token, reply) {
                Ok(Payload::Token(t)) => {
                    self.auth_data.token = Some(t.token);
                    self.stage = Stage::Ready;
                    Step::Done(Ok(Outcome::Authenticated))
                },
                Ok(_) => Step::Done(Err(Error::DecodeFailure(sent.context))),
                Err(e) => Step::Done(Err(e)),
            },
            Stage::ResolvingSpace(draft, sent) => match TimeularHttpClient::receive(
                &sent,
                Shape::Spaces,
                reply,
            ) {
                Ok(Payload::Spaces(list)) => match list.default_space_id() {
                    Ok(id) => self.issue_creation(draft, id),
                    Err(e) => {
                        self.stage = Stage::Ready;
                        Step::Done(Err(e))
                    },
                },
                Ok(_) => {
                    self.stage = Stage::Ready;
                    Step::Done(Err(Error::DecodeFailure(sent.context)))
                },
                Err(e) => {
                    self.stage = Stage::Ready;
                    Step::Done(Err(e))
                },
            },
            Stage::ListingSpaces(sent) => {
                self.stage = Stage::Ready;
                match TimeularHttpClient::receive(&sent, Shape::Spaces, reply) {
                    Ok(Payload::Spaces(list)) => Step::Done(Ok(Outcome::SpacesListed(list))),
                    Ok(_) => Step::Done(Err(Error::DecodeFailure(sent.context))),
                    Err(e) => Step::Done(Err(e)),
                }
            },
            Stage::CreatingActivity(sent) => {
                self.stage = Stage::Ready;
                match TimeularHttpClient::receive(&sent, Shape::Activity, reply) {
                    Ok(Payload::Activity(a)) => Step::Done(
                        Ok(Outcome::ActivityCreated { id: a.id, name: a.name }),
                    ),
                    Ok(_) => Step::Done(Err(Error::DecodeFailure(sent.context))),
                    Err(e) => Step::Done(Err(e)),
                }
            },
            Stage::CreatingTag(sent) => {
                self.stage = Stage::Ready;
                match TimeularHttpClient::receive(&sent, Shape::Tag, reply) {
                    Ok(Payload::Tag(t)) => Step::Done(Ok(Outcome::TagCreated(t.id))),
                    Ok(_) => Step::Done(Err(Error::DecodeFailure(sent.context))),
                    Err(e) => Step::Done(Err(e)),
                }
            },
            Stage::Releasing(sent) => {
                let logout_failure = match TimeularHttpClient::receive(&sent, Shape::Nothing, reply) {
                    Ok(_) => None,
                    Err(e) => Some(e),
                };
                Step::Done(Ok(Outcome::Released { logout_failure }))
            },
            Stage::Ready => {
                self.stage = Stage::Ready;
                Step::Done(Err(Error::MissingAuthentication))
            },
            Stage::Released => Step::Done(Ok(Outcome::Released { logout_failure: None })),
        }
    }

    /// Ends the session: where a token was obtained and not yet released, the
    /// logout call goes out; whatever its reply, the session ends released.
    pub fn release(&mut self) -> (step: Step)
        ensures
            released(*old(self), *final(self), step),
    {
        let live = match self.stage {
            Stage::Released => false,
            Stage::Releasing(_) => false,
            _ => true,
        };
        if live {
            match &self.auth_data.token {
                Some(t) => {
                    let req = self.client.logout(t.as_str());
                    self.stage = Stage::Releasing(req.sent());
                    return Step::Call(req);
                },
                None => {},
            }
        }
        self.stage = Stage::Released;
        Step::Done(Ok(Outcome::Released { logout_failure: None }))
    }
}

/// Opening a session from credentials without a token: where both fields are
/// present, exactly one call goes out, the sign-in with those credentials, and
/// once its reply is taken no further call follows; where a field is missing,
/// no call goes out and opening fails with `MissingAuthentication`.
pub proof fn lemma_open_signs_in_once(
    auth: TimeularAuth,
    s0: Timeular,
    first: Step,
    reply: Reply,
    s1: Timeular,
    second: Step,
)
    requires
        auth.token is None,
        opened(auth, s0, first),
        first is Call ==> replied(s0, reply, s1, second),
    ensures
        auth.credentials.valid() ==> (first matches Step::Call(req) && is_login(
            s0.client(),
            req,
            auth.credentials.api_key,
            auth.credentials.api_secret,
        )),
        auth.credentials.valid() ==> second is Done,
        auth.credentials.valid() && second == Step::Done(Ok(Outcome::Authenticated)) ==> ready(s1),
        !auth.credentials.valid() ==> first == Step::Done(Err(Error::MissingAuthentication)),
{
}

/// Release logs out exactly once, and only where a token was obtained and the
/// session was not already released: the logout with that token is the one
/// call, its reply ends the session released and never as an error, and a
/// further release makes no call.
pub proof fn lemma_release_logs_out_once(
    s0: Timeular,
    s1: Timeular,
    first: Step,
    reply: Reply,
    s2: Timeular,
    second: Step,
    s3: Timeular,
    third: Step,
)
    requires
        released(s0, s1, first),
        first is Call ==> replied(s1, reply, s2, second),
        !(first is Call) ==> s2 == s1,
        released(s2, s3, third),
    ensures
        first is Call <==> (s0.auth().token is Some && !(s0.stage() is Released
            || s0.stage() is Releasing)),
        first matches Step::Call(req) ==> is_logout(s0.client(), req, s0.auth().token->Some_0@),
        first is Call ==> second matches Step::Done(Ok(Outcome::Released { .. })),
        !(first is Call) ==> first matches Step::Done(Ok(Outcome::Released { .. })),
        s2.stage() is Released,
        third == Step::Done(Ok(Outcome::Released { logout_failure: None })),
{
}

/// Creating an activity on a ready session: with a space given, the create call
/// goes out at once, in that space, with no listing; without one, exactly one
/// listing of the spaces goes out first, and the next call is the create call
/// in the sole default space where the listing names one; otherwise no further
/// call follows.
pub proof fn lemma_activity_space_resolution(
    s0: Timeular,
    name: String,
    color: String,
    space_id: Option<String>,
    s1: Timeular,
    first: Step,
    reply: Reply,
    s2: Timeular,
    second: Step,
)
    requires
        ready(s0),
        started(s0, Draft::Activity { name, color }, space_id, s1, first),
        replied(s1, reply, s2, second),
    ensures
        space_id matches Some(x) ==> (first matches Step::Call(req) && is_activity_creation(
            s0.client(),
            req,
            s0.auth().token->Some_0@,
            name,
            color,
            x,
        )),
        space_id is None ==> (first matches Step::Call(req) && is_space_listing(
            s0.client(),
            req,
            s0.auth().token->Some_0@,
        )),
        space_id is None ==> match received(sent_for(first->Call_0), Shape::Spaces, reply) {
            Ok(Payload::Spaces(list)) => match sole_default_id(list.data@) {
                Some(id) => second matches Step::Call(req) && is_activity_creation(
                    s0.client(),
                    req,
                    s0.auth().token->Some_0@,
                    name,
                    color,
                    id,
                ),
                None => second == Step::Done(Err(Error::NoDefaultSpace)),
            },
            _ => second is Done,
        },
{
}

/// Resolving the space of an operation: a listing with exactly one space marked
/// default gives that space's id to the create call, a listing with none fails
/// with `NoDefaultSpace`, and a successful answer whose body is not a space
/// list fails with a decode failure tagged "fetching spaces".
pub proof fn lemma_default_space_resolution(
    s0: Timeular,
    draft: Draft,
    s1: Timeular,
    first: Step,
    reply: Reply,
    s2: Timeular,
    second: Step,
    i: int,
)
    requires
        ready(s0),
        started(s0, draft, None, s1, first),
        replied(s1, reply, s2, second),
    ensures
        match reply {
            Reply::Answered { status, body, .. } => (is_success(status) && body is None) ==> (
            second matches Step::Done(Err(Error::DecodeFailure(ctx))) && ctx@ == fetching_spaces()),
            _ => true,
        },
        match received(sent_for(first->Call_0), Shape::Spaces, reply) {
            Ok(Payload::Spaces(list)) => {
                &&& is_sole_default(list.data@, i) ==> creation_issued(
                    s1,
                    draft,
                    list.data@[i].id,
                    s2,
                    second,
                )
                &&& (forall|j: int| 0 <= j < list.data.len() ==> !(#[trigger] list.data@[j]).default)
                    ==> second == Step::Done(Err(Error::NoDefaultSpace))
            },
            _ => true,
        },
{
    if let Ok(Payload::Spaces(list)) = received(sent_for(first->Call_0), Shape::Spaces, reply) {
        lemma_sole_default_id(list.data@, i);
    }
}

/// Any answer outside `200..=299` to the call that creates an activity is an
/// `ApiFailure` that carries the address of `/activities` and the status.
pub proof fn lemma_activity_error_status(
    s1: Timeular,
    req: Request,
    token: Seq<char>,
    name: String,
    color: String,
    space_id: String,
    reply: Reply,
    s2: Timeular,
    step: Step,
)
    requires
        is_activity_creation(s1.client(), req, token, name, color, space_id),
        s1.stage() == Stage::CreatingActivity(sent_for(req)),
        replied(s1, reply, s2, step),
        reply matches Reply::Answered { status, .. } && !is_success(status),
    ensures
        step matches Step::Done(Err(Error::ApiFailure { url, status, .. })) && url@
            == s1.client().endpoint(activities_path()) && status == reply->status,
{
}

} // verus!
