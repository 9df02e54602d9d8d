//! The import as a whole: for every field a token that serves, then one request,
//! then an entry in the report.
//!
//! The pipeline decides and the caller acts. [`ImportPipeline::next_action`] says
//! what is due: to ask the user, to fetch a token, to send the request for a field,
//! or nothing more. The caller does it and hands back what came of it. The token is
//! looked at anew for every field, so one that expires during the run is renewed
//! before the next request. A field that fails is reported and the run goes on; only
//! wrong credentials end it.

use vstd::prelude::*;
use crate::api::{
    outcome_view, reply_outcome, request_for, FieldClient, FieldClientView, FieldReply,
    FieldReplyView, FieldRequest, FieldRequestView,
};
use crate::auth::{
    cache_after, cached_header, fetched_header, lifetime_fits, token_request_of, AuthClient,
    AuthClientView, AuthTokenView, TokenReply, TokenReplyView, TokenRequest, TokenRequestView,
    TokenStep,
};
use crate::error::{CustomError, CustomErrorView};
use crate::field::Field;
use crate::import_result::ImportResults;
use crate::screens::{
    import_run, labels_of, lemma_import_run_reports_each_field_once, DebugAction, ImportRun,
    ImportRunView, RunAction, ScreenManager,
};

verus! {

/// What the caller is to do next: ask the user about the field at an index, fetch a
/// token with a request, send the request for the field at an index, or nothing.
#[derive(Debug)]
pub enum PipelineAction {
    Prompt(usize),
    FetchToken(TokenRequest),
    Send(usize, FieldRequest),
    Done,
}

pub enum PipelineActionView {
    Prompt(nat),
    FetchToken(TokenRequestView),
    Send(nat, FieldRequestView),
    Done,
}

impl View for PipelineAction {
    type V = PipelineActionView;

    open spec fn view(&self) -> PipelineActionView {
        match self {
            PipelineAction::Prompt(index) => PipelineActionView::Prompt(*index as nat),
            PipelineAction::FetchToken(request) => PipelineActionView::FetchToken(request@),
            PipelineAction::Send(index, request) => PipelineActionView::Send(
                *index as nat,
                request@,
            ),
            PipelineAction::Done => PipelineActionView::Done,
        }
    }
}

/// The import: the fields and the course through them, the client that makes the
/// requests, and whether the token in the client was fetched for the field that is
/// due.
#[derive(Debug)]
pub struct ImportPipeline {
    screens: ScreenManager,
    client: FieldClient,
    run: ImportRun,
    token_fresh: bool,
}

/// The import as plain values.
pub struct ImportPipelineView {
    pub fields: Seq<Field>,
    pub client: FieldClientView,
    pub run: ImportRunView,
    pub token_fresh: bool,
}

impl View for ImportPipeline {
    type V = ImportPipelineView;

    closed spec fn view(&self) -> ImportPipelineView {
        ImportPipelineView {
            fields: self.screens@,
            client: self.client@,
            run: self.run@,
            token_fresh: self.token_fresh,
        }
    }
}

impl ImportPipelineView {
    /// The import with another course.
    pub open spec fn with_run(self, run: ImportRunView) -> ImportPipelineView {
        ImportPipelineView {
            fields: self.fields,
            client: self.client,
            run,
            token_fresh: false,
        }
    }

    /// The import with a header value in its client.
    pub open spec fn with_token(self, header: Seq<char>, fresh: bool) -> ImportPipelineView {
        ImportPipelineView {
            fields: self.fields,
            client: FieldClientView { config: self.client.config, auth_token: header },
            run: self.run,
            token_fresh: fresh,
        }
    }

    /// Whether the user is to be asked about the field that is due.
    pub open spec fn asks(self) -> bool {
        self.run.asks(self.fields.len())
    }

    /// Whether the field that is due is to be submitted.
    pub open spec fn submits(self) -> bool {
        self.run.submits(self.fields.len())
    }

    /// The header value for the request that is due at `now`: that of the token
    /// that was fetched for this field, or else that of the cached token if it is
    /// not expired.
    pub open spec fn header_due(self, cache: Option<AuthTokenView>, now: int) -> Option<Seq<char>> {
        if self.token_fresh {
            Some(self.client.auth_token)
        } else {
            cached_header(cache, now)
        }
    }

    /// What is due at `now`. A submission needs a header value first: where none
    /// serves, a token is to be fetched; where one does, the request is to be sent
    /// with it.
    pub open spec fn action_due(self, auth: AuthClientView, now: int) -> PipelineActionView {
        if self.asks() {
            PipelineActionView::Prompt(self.run.position)
        } else if self.submits() {
            match self.header_due(auth.current_token, now) {
                Some(header) => PipelineActionView::Send(
                    self.run.position,
                    request_for(self.client.config, header, self.fields[self.run.position as int]@),
                ),
                None => PipelineActionView::FetchToken(token_request_of(auth.config)),
            }
        } else {
            PipelineActionView::Done
        }
    }

    /// The import after it said what is due: the header value of a request to send
    /// is the client's from then on.
    pub open spec fn after_action(self, auth: AuthClientView, now: int) -> ImportPipelineView {
        if self.submits() {
            match self.header_due(auth.current_token, now) {
                Some(header) => self.with_token(header, self.token_fresh),
                None => self,
            }
        } else {
            self
        }
    }

    /// The import after the reply to a token request. A granted token is the
    /// client's for the field that is due. Wrong credentials end the run. Any other
    /// error is the failure of the field that is due, and the run goes on.
    pub open spec fn after_token(self, reply: TokenReplyView, now: int) -> ImportPipelineView {
        match fetched_header(reply, now) {
            Ok(header) => if self.submits() {
                self.with_token(header, true)
            } else {
                self
            },
            Err(e) => if Self::ends_run(e) {
                self.with_run(self.run.halted())
            } else {
                self.with_run(self.run.recorded(labels_of(self.fields), Some(e.message())))
            },
        }
    }

    /// Whether an error ends the run.
    pub open spec fn ends_run(error: CustomErrorView) -> bool {
        error matches CustomErrorView::AuthError(e) && e.is_fatal()
    }

    /// The import after the reply to the request for the field that is due: the
    /// field enters the report and the next is due. Where no submission was due,
    /// nothing changes.
    pub open spec fn after_reply(self, reply: FieldReplyView) -> ImportPipelineView {
        if self.submits() {
            self.with_run(
                self.run.recorded(
                    labels_of(self.fields),
                    reply_error(self.fields[self.run.position as int]@.label, reply),
                ),
            )
        } else {
            self
        }
    }

    /// The import after the user's choice.
    pub open spec fn after_choice(self, choice: DebugAction) -> ImportPipelineView {
        if self.asks() {
            self.with_run(self.run.chosen(self.fields.len(), choice))
        } else {
            self
        }
    }
}

/// What a reply adds to the report for the field with the given label: nothing for
/// success, the error's message for a failure.
pub open spec fn reply_error(label: Seq<char>, reply: FieldReplyView) -> Option<Seq<char>> {
    match reply_outcome(label, reply) {
        Ok(_) => None,
        Err(e) => Some(e.message()),
    }
}

/// An import over all fields that has taken the replies for its first fields takes
/// the reply for the next as a run over all fields takes one more outcome. So what
/// holds of such a run holds of the import: every field is reported once, and a
/// failure does not end it.
pub proof fn lemma_reply_extends_run(
    import: ImportPipelineView,
    errors: Seq<Option<Seq<char>>>,
    reply: FieldReplyView,
)
    requires
        errors.len() < import.fields.len(),
        import.run == import_run(labels_of(import.fields), errors),
    ensures
        import.submits(),
        import.after_reply(reply).run == import_run(
            labels_of(import.fields),
            errors.push(reply_error(labels_of(import.fields)[errors.len() as int], reply)),
        ),
{
    let labels = labels_of(import.fields);
    let next = errors.push(reply_error(labels[errors.len() as int], reply));
    lemma_import_run_reports_each_field_once(labels, errors);
    assert(next.drop_last() =~= errors);
}

impl ImportPipeline {
    /// An import of the fields of `screens` through `client`, before its first field.
    /// With `debug`, the user is asked about every field.
    pub fn new(screens: ScreenManager, client: FieldClient, debug: bool) -> (pipeline:
        ImportPipeline)
        ensures
            pipeline@ == (ImportPipelineView {
                fields: screens@,
                client: client@,
                run: ImportRunView::start(debug),
                token_fresh: false,
            }),
    {
        let run = if debug {
            screens.debug_mode()
        } else {
            screens.process_all_fields()
        };
        ImportPipeline { screens, client, run, token_fresh: false }
    }

    /// What is due at `now`, with the token that `auth` has cached.
    pub fn next_action(&mut self, auth: &AuthClient, now: i64) -> (action: PipelineAction)
        ensures
            action@ == old(self)@.action_due(auth@, now as int),
            final(self)@ == old(self)@.after_action(auth@, now as int),
    {
        match self.screens.next_action(&self.run) {
            RunAction::Done => PipelineAction::Done,
            RunAction::Prompt(index) => PipelineAction::Prompt(index),
            RunAction::Submit(index) => {
                if !self.token_fresh {
                    match auth.get_valid_token(now) {
                        TokenStep::Ready(header) => {
                            self.client.set_auth_token(header);
                        },
                        TokenStep::Fetch(request) => {
                            return PipelineAction::FetchToken(request);
                        },
                    }
                }
                let fields = self.screens.fields();
                PipelineAction::Send(index, self.client.create_field(&fields[index]))
            },
        }
    }

    /// Takes the user's choice for the field that the user was asked about. Returns
    /// whether a choice was due; where none was, nothing changes.
    pub fn decide(&mut self, choice: DebugAction) -> (due: bool)
        ensures
            due == old(self)@.asks(),
            final(self)@ == old(self)@.after_choice(choice),
    {
        let due = self.screens.decide(&mut self.run, choice);
        if due {
            self.token_fresh = false;
        }
        due
    }

    /// Takes the reply to a token request, received at `now`. `auth` keeps a granted
    /// token. Wrong credentials end the run and are returned; any other error is the
    /// failure of the field that is due.
    pub fn token_received(&mut self, auth: &mut AuthClient, reply: TokenReply, now: i64) -> (result:
        Result<(), CustomError>)
        requires
            lifetime_fits(reply@, now as int),
        ensures
            final(auth)@.config == old(auth)@.config,
            final(auth)@.current_token == cache_after(
                old(auth)@.current_token,
                reply@,
                now as int,
            ),
            final(self)@ == old(self)@.after_token(reply@, now as int),
            outcome_view(result) == match fetched_header(reply@, now as int) {
                Ok(_) => Ok(()),
                Err(e) => if ImportPipelineView::ends_run(e) {
                    Err(e)
                } else {
                    Ok(())
                },
            },
    {
        match auth.fetch_new_token(reply, now) {
            Ok(header) => {
                match self.screens.next_action(&self.run) {
                    RunAction::Submit(_) => {
                        self.client.set_auth_token(header);
                        self.token_fresh = true;
                    },
                    _ => {},
                }
                Ok(())
            },
            Err(e) => {
                self.token_fresh = false;
                if e.is_fatal() {
                    self.screens.stop(&mut self.run);
                    Err(e)
                } else {
                    self.screens.record(&mut self.run, Err(e));
                    Ok(())
                }
            },
        }
    }

    /// Takes the reply to the request for the field that is due. Returns whether a
    /// submission was due; where none was, nothing changes.
    pub fn reply_received(&mut self, reply: FieldReply) -> (due: bool)
        ensures
            due == old(self)@.submits(),
            final(self)@ == old(self)@.after_reply(reply@),
    {
        match self.screens.next_action(&self.run) {
            RunAction::Submit(index) => {
                let fields = self.screens.fields();
                let outcome = self.client.field_created(&fields[index], reply);
                self.screens.record(&mut self.run, outcome);
                self.token_fresh = false;
                true
            },
            _ => false,
        }
    }

    /// The fields.
    pub fn fields(&self) -> (fields: &Vec<Field>)
        ensures
            fields@ == self@.fields,
    {
        self.screens.fields()
    }

    /// The report so far.
    pub fn results(&self) -> (results: &ImportResults)
        ensures
            results@ == self@.run.results,
    {
        self.run.results()
    }

    /// The report, at the end of the import.
    pub fn into_results(self) -> (results: ImportResults)
        ensures
            results@ == self@.run.results,
    {
        self.run.into_results()
    }
}

} // verus!
