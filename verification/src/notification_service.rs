//! The notification dispatcher: a registry of descriptors, parameter
//! merging, template rendering and the mapping of the mail collaborator's
//! outcome.
//!
//! Triggering is split at the process boundary: the dispatcher prepares an
//! [`EmailTask`] (registry lookup, channel dispatch, parameter merge), the
//! boundary reads the task's template files and performs the send, and
//! verified code turns template sources into the mail text and the send
//! outcome into the caller's result.

use vstd::prelude::*;

use crate::kv::{assoc_find, assoc_get, assoc_set, assoc_unique};
use crate::layout::{add_layout, layout_head, layout_tail};
use crate::mailer::{MailUser, SendEmailResult};
use crate::notification_builder::{
    DefaultReplaceSettings, NotificationBuilder, NotificationConfig, NotificationConfigType,
    NotificationTriggerSettings, ReplaceSettingsView,
};

verus! {

/// Why a trigger failed.
#[derive(Debug)]
pub enum NotificationError {
    /// The id names no registered descriptor, or its channel has no
    /// delivery implementation.
    NotificationNotConfigured,
    /// The mail collaborator failed; carries the transport's message.
    MailerError(String),
    /// A template could not be compiled or rendered.
    RenderError(String),
    /// The descriptor's channel needs a recipient but the trigger supplied
    /// none.
    RecipientMissing,
}

/// The prepared work of one email notification: where its templates live,
/// the merged parameters, and the recipient.
pub struct EmailTask {
    pub subject_template: String,
    pub render_template: String,
    pub params: Vec<(String, String)>,
    pub recipient: MailUser,
}

/// The subject and laid-out body of one rendered email.
pub struct RenderedEmail {
    pub subject: String,
    pub body: String,
}

/// The value one merged parameter takes: a trigger-supplied override wins;
/// otherwise the default's example value stands in when flagged usable; an
/// unusable default yields the empty string.
pub open spec fn merged_value(d: ReplaceSettingsView, ov: Option<String>) -> Seq<char> {
    match ov {
        Some(s) => s@,
        None => if d.default {
            d.example_value
        } else {
            Seq::<char>::empty()
        },
    }
}

/// The merged parameter map: one entry per declared default, in order, each
/// carrying its [`merged_value`] against the trigger's overrides.
pub open spec fn merged_params(
    defaults: Seq<(Seq<char>, ReplaceSettingsView)>,
    overrides: Seq<(String, String)>,
    out: Seq<(Seq<char>, Seq<char>)>,
) -> bool {
    &&& out.len() == defaults.len()
    &&& forall|i: int|
        0 <= i < defaults.len() ==> (#[trigger] out[i]).0 == defaults[i].0 && out[i].1
            == merged_value(defaults[i].1, assoc_find(overrides, defaults[i].0))
}

/// Relies on `tera::Tera::one_off`: compiles the template source and renders
/// it against the given string parameters. The outcome is not modeled — a
/// template may invoke environment-dependent functions — so nothing is
/// promised of the text that comes back.
#[verifier::external_body]
fn tera_render(template: &String, params: &Vec<(String, String)>) -> (r: Result<String, String>) {
    let mut context = tera::Context::new();
    for (key, value) in params.iter() {
        context.insert(key.as_str(), value);
    }
    match tera::Tera::one_off(template.as_str(), &context, true) {
        Ok(s) => Ok(s),
        Err(e) => Err(e.to_string()),
    }
}

/// Registry of notification descriptors, keyed by descriptor id.
///
/// Registration happens once, at start-up, before concurrent triggering
/// begins; thereafter the registry is only read.
pub struct NotificationService {
    store: Vec<(String, NotificationConfig)>,
}

impl NotificationService {
    /// The descriptor registered under `id`.
    pub closed spec fn lookup(self, id: Seq<char>) -> Option<NotificationConfig> {
        assoc_find(self.store@, id)
    }

    /// Registry keys are distinct and every registered descriptor is one
    /// the builder would emit.
    pub closed spec fn wf(self) -> bool {
        &&& assoc_unique(self.store@)
        &&& forall|id: Seq<char>|
            (#[trigger] assoc_find(self.store@, id)) matches Some(c) ==> c.wf()
    }

    /// An empty registry.
    pub fn new() -> (r: NotificationService)
        ensures
            r.wf(),
            forall|id: Seq<char>| r.lookup(id) is None,
    {
        let r = NotificationService { store: Vec::new() };
        proof {
            assert forall|id: Seq<char>| r.lookup(id) is None by {
                crate::kv::lemma_assoc_find_absent(r.store@, id);
            }
        }
        r
    }

    /// A fresh builder for a descriptor named `id` on channel `ntype`.
    pub fn get_builder(&self, id: String, ntype: NotificationConfigType) -> (r:
        NotificationBuilder)
        ensures
            r.spec_id() == id@,
            r.spec_ntype() == ntype,
            r.spec_subject() is None,
            r.spec_render() is None,
            r.spec_untype() is None,
            r.spec_settings() == Seq::<(Seq<char>, ReplaceSettingsView)>::empty(),
    {
        NotificationBuilder::new(id, ntype)
    }

    /// Register a descriptor under its id; a later registration of the same
    /// id replaces the earlier descriptor.
    pub fn register(&mut self, setting: NotificationConfig)
        requires
            old(self).wf(),
            setting.wf(),
        ensures
            final(self).wf(),
            final(self).lookup(setting@.id) == Some(setting),
            forall|id: Seq<char>|
                id != setting@.id ==> final(self).lookup(id) == old(self).lookup(id),
    {
        let ghost idv = setting.id@;
        let key = setting.id.clone();
        assoc_set(&mut self.store, key, setting);
        proof {
            assert forall|id: Seq<char>|
                (#[trigger] assoc_find(self.store@, id)) is Some implies assoc_find(
                self.store@,
                id,
            )->0.wf() by {
                if id != idv {
                    assert(assoc_find(self.store@, id) == assoc_find(old(self).store@, id));
                }
            }
        }
    }

    /// Merge the declared defaults with the trigger's overrides, parameter
    /// by parameter, as [`merged_value`] dictates.
    pub fn get_merged_values(
        &self,
        default_params: &Vec<(String, DefaultReplaceSettings)>,
        trigger_settings: &NotificationTriggerSettings,
    ) -> (r: Vec<(String, String)>)
        ensures
            merged_params(default_params.deep_view(), trigger_settings.params@, r.deep_view()),
    {
        let mut out: Vec<(String, String)> = Vec::new();
        let n = default_params.len();
        for i in 0..n
            invariant
                n == default_params@.len(),
                out.deep_view().len() == i,
                forall|j: int|
                    0 <= j < i ==> (#[trigger] out.deep_view()[j]).0
                        == default_params.deep_view()[j].0 && out.deep_view()[j].1 == merged_value(
                        default_params.deep_view()[j].1,
                        assoc_find(trigger_settings.params@, default_params.deep_view()[j].0),
                    ),
        {
            let ghost pre = out.deep_view();
            assert(default_params.deep_view()[i as int].0 == default_params@[i as int].0@);
            assert(default_params.deep_view()[i as int].1 == default_params@[i as int].1@);
            let key = default_params[i].0.clone();
            let value: String = match assoc_get(&trigger_settings.params, &default_params[i].0) {
                Some(v) => v.clone(),
                None => {
                    if default_params[i].1.default {
                        default_params[i].1.example_value.clone()
                    } else {
                        String::new()
                    }
                },
            };
            out.push((key, value));
            proof {
                assert(out.deep_view() =~= pre.push(
                    (
                        out@[i as int].0@,
                        out@[i as int].1@,
                    ),
                ));
            }
        }
        out
    }

    /// Prepare the email work of one descriptor: merge parameters and name
    /// the templates; fails only for a missing recipient.
    pub fn handle_email(
        &self,
        conf: NotificationConfig,
        trigger_settings: NotificationTriggerSettings,
    ) -> (r: Result<EmailTask, NotificationError>)
        requires
            conf@.ntype == NotificationConfigType::Email,
            conf.wf(),
        ensures
            match trigger_settings.email {
                None => r == Err::<EmailTask, NotificationError>(
                    NotificationError::RecipientMissing,
                ),
                Some(m) => r matches Ok(task) && {
                    &&& task.subject_template@ == conf@.subject->0
                    &&& task.render_template@ == conf@.render
                    &&& task.recipient == m
                    &&& merged_params(
                        conf@.settings,
                        trigger_settings.params@,
                        task.params.deep_view(),
                    )
                },
            },
    {
        let recipient = match &trigger_settings.email {
            None => {
                return Err(NotificationError::RecipientMissing);
            },
            Some(m) => m.clone(),
        };
        let params = self.get_merged_values(&conf.settings, &trigger_settings);
        let subject_template = match conf.subject {
            Some(s) => s,
            None => {
                return Err(NotificationError::NotificationNotConfigured);
            },
        };
        Ok(EmailTask { subject_template, render_template: conf.render, params, recipient })
    }

    /// The websocket channel has no delivery implementation; triggering a
    /// websocket descriptor always reports it unconfigured.
    pub fn handle_websocket(
        &self,
        conf: NotificationConfig,
        trigger_settings: NotificationTriggerSettings,
    ) -> (r: Result<EmailTask, NotificationError>)
        ensures
            r == Err::<EmailTask, NotificationError>(NotificationError::NotificationNotConfigured),
    {
        let _ = conf;
        let _ = trigger_settings;
        Err(NotificationError::NotificationNotConfigured)
    }

    /// Look `id` up and dispatch on its channel: unknown ids and
    /// channels without a delivery implementation are `NotConfigured`; an
    /// email descriptor yields its prepared [`EmailTask`].
    pub fn trigger(&self, id: String, trigger_settings: NotificationTriggerSettings) -> (r: Result<
        EmailTask,
        NotificationError,
    >)
        requires
            self.wf(),
        ensures
            match self.lookup(id@) {
                None => r == Err::<EmailTask, NotificationError>(
                    NotificationError::NotificationNotConfigured,
                ),
                Some(c) => {
                    &&& (c@.ntype == NotificationConfigType::Websocket ==> r == Err::<
                        EmailTask,
                        NotificationError,
                    >(NotificationError::NotificationNotConfigured))
                    &&& (c@.ntype == NotificationConfigType::Email
                        ==> match trigger_settings.email {
                        None => r == Err::<EmailTask, NotificationError>(
                            NotificationError::RecipientMissing,
                        ),
                        Some(m) => r matches Ok(task) && {
                            &&& task.subject_template@ == c@.subject->0
                            &&& task.render_template@ == c@.render
                            &&& task.recipient == m
                            &&& merged_params(
                                c@.settings,
                                trigger_settings.params@,
                                task.params.deep_view(),
                            )
                        },
                    })
                },
            },
    {
        let setting = match assoc_get(&self.store, &id) {
            None => {
                return Err(NotificationError::NotificationNotConfigured);
            },
            Some(s) => s,
        };
        match setting.ntype {
            NotificationConfigType::Email => {
                let conf = setting.clone();
                self.handle_email(conf, trigger_settings)
            },
            NotificationConfigType::Websocket => {
                let conf = setting.clone();
                self.handle_websocket(conf, trigger_settings)
            },
        }
    }

    /// Render one template source against merged parameters; a templating
    /// failure surfaces as `RenderError` with the engine's message.
    pub fn get_text(&self, template_source: &String, params: &Vec<(String, String)>) -> (r: Result<
        String,
        NotificationError,
    >)
        ensures
            r matches Err(e) ==> e matches NotificationError::RenderError(_),
    {
        match tera_render(template_source, params) {
            Ok(s) => Ok(s),
            Err(e) => Err(NotificationError::RenderError(e)),
        }
    }

    /// Render subject and body sources for a task and wrap the body in the
    /// fixed transactional layout.
    pub fn compose_email(
        &self,
        subject_source: &String,
        body_source: &String,
        params: &Vec<(String, String)>,
    ) -> (r: Result<RenderedEmail, NotificationError>)
        ensures
            r matches Err(e) ==> e matches NotificationError::RenderError(_),
            r matches Ok(m) ==> exists|raw: Seq<char>|
                #[trigger] m.body@ == layout_head() + raw + layout_tail(),
    {
        let subject = match self.get_text(subject_source, params) {
            Ok(s) => s,
            Err(e) => {
                return Err(e);
            },
        };
        let raw = match self.get_text(body_source, params) {
            Ok(s) => s,
            Err(e) => {
                return Err(e);
            },
        };
        let ghost rawv = raw@;
        let body = add_layout(raw);
        proof {
            assert(body@ == layout_head() + rawv + layout_tail());
        }
        Ok(RenderedEmail { subject, body })
    }

    /// Fold the mail collaborator's outcome into the trigger's result:
    /// success is `Ok(true)`, failure carries the transport's message.
    pub fn handle_send_result(outcome: SendEmailResult) -> (r: Result<bool, NotificationError>)
        ensures
            match outcome {
                SendEmailResult::Sent(_) => r == Ok::<bool, NotificationError>(true),
                SendEmailResult::Error(e) => r matches Err(err) && err matches
                    NotificationError::MailerError(m) && m@ == e@,
            },
    {
        match outcome {
            SendEmailResult::Sent(_) => Ok(true),
            SendEmailResult::Error(e) => Err(NotificationError::MailerError(e)),
        }
    }
}

} // verus!
