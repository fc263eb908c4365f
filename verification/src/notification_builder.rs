//! Validated construction of notification descriptors.
//!
//! A builder accumulates the pieces of one notification configuration;
//! [`NotificationBuilder::build`] refuses any incomplete combination, so a
//! descriptor is never partially valid. The render template is checked
//! first, so omitting it always fails with `RenderTemplateMissing`.

use vstd::prelude::*;

use crate::kv::{assoc_find, assoc_set};
use crate::mailer::MailUser;

verus! {

/// Delivery channel of a notification.
#[derive(Debug, PartialEq, Eq, Clone, Copy, Structural)]
pub enum NotificationConfigType {
    Email,
    Websocket,
}

/// The user-facing category a notification belongs to.
#[derive(Debug, PartialEq, Eq, Clone, Copy, Structural)]
pub enum UserNotificationType {
    LoginLink,
    VerificationLink,
}

/// Abstract value of a [`DefaultReplaceSettings`].
pub ghost struct ReplaceSettingsView {
    pub example_value: Seq<char>,
    pub default: bool,
}

/// Default policy for one template parameter: an example value, and whether
/// the example may stand in when a trigger supplies nothing.
pub struct DefaultReplaceSettings {
    pub example_value: String,
    pub default: bool,
}

impl View for DefaultReplaceSettings {
    type V = ReplaceSettingsView;

    open spec fn view(&self) -> ReplaceSettingsView {
        ReplaceSettingsView { example_value: self.example_value@, default: self.default }
    }
}

impl DeepView for DefaultReplaceSettings {
    type V = ReplaceSettingsView;

    open spec fn deep_view(&self) -> ReplaceSettingsView {
        self.view()
    }
}

impl Clone for DefaultReplaceSettings {
    fn clone(&self) -> (r: Self)
        ensures
            r == *self,
    {
        DefaultReplaceSettings { example_value: self.example_value.clone(), default: self.default }
    }
}

/// The policy bound to parameter name `k`, or `None` when `k` is absent.
pub open spec fn settings_find(
    s: Seq<(Seq<char>, ReplaceSettingsView)>,
    k: Seq<char>,
) -> Option<ReplaceSettingsView>
    decreases s.len(),
{
    if s.len() == 0 {
        None
    } else if s[0].0 == k {
        Some(s[0].1)
    } else {
        settings_find(s.drop_first(), k)
    }
}

/// The abstract value of a raw settings list.
pub open spec fn settings_view(s: Seq<(String, DefaultReplaceSettings)>) -> Seq<
    (Seq<char>, ReplaceSettingsView),
> {
    Seq::new(s.len(), |i: int| (s[i].0@, s[i].1@))
}

/// Looking a name up commutes with taking the abstract value.
proof fn lemma_settings_find_view(s: Seq<(String, DefaultReplaceSettings)>, k: Seq<char>)
    ensures
        match assoc_find(s, k) {
            None => settings_find(settings_view(s), k) is None,
            Some(d) => settings_find(settings_view(s), k) == Some(d@),
        },
    decreases s.len(),
{
    if s.len() != 0 {
        assert(settings_view(s)[0] == (s[0].0@, s[0].1@));
        assert(settings_view(s).drop_first() =~= settings_view(s.drop_first()));
        lemma_settings_find_view(s.drop_first(), k);
    }
}

/// What a caller supplies when triggering a notification: an optional
/// recipient identity, the target user, and parameter overrides.
pub struct NotificationTriggerSettings {
    pub email: Option<MailUser>,
    pub user_id: i32,
    pub params: Vec<(String, String)>,
}

/// Why a descriptor could not be built.
#[derive(Debug, PartialEq, Eq, Clone, Copy, Structural)]
pub enum NotificationBuilderError {
    /// The channel is Email but no subject template was set.
    SubjectTemplateMissing,
    /// No render template was set.
    RenderTemplateMissing,
    /// No notification category was set.
    CategoryMissing,
}

/// Abstract value of a [`NotificationConfig`].
pub ghost struct NotificationConfigView {
    pub id: Seq<char>,
    pub ntype: NotificationConfigType,
    pub untype: UserNotificationType,
    pub subject: Option<Seq<char>>,
    pub render: Seq<char>,
    pub settings: Seq<(Seq<char>, ReplaceSettingsView)>,
}

/// An immutable, validated notification descriptor.
pub struct NotificationConfig {
    /// Unique key in the dispatcher's registry.
    pub id: String,
    pub ntype: NotificationConfigType,
    pub untype: UserNotificationType,
    /// Subject template path; present whenever `ntype` is Email.
    pub subject: Option<String>,
    /// Render (body) template path.
    pub render: String,
    /// Per-parameter default policies.
    pub settings: Vec<(String, DefaultReplaceSettings)>,
}

impl View for NotificationConfig {
    type V = NotificationConfigView;

    open spec fn view(&self) -> NotificationConfigView {
        NotificationConfigView {
            id: self.id@,
            ntype: self.ntype,
            untype: self.untype,
            subject: self.subject.deep_view(),
            render: self.render@,
            settings: self.settings.deep_view(),
        }
    }
}

impl NotificationConfig {
    /// A descriptor the builder would emit: an Email descriptor always has a
    /// subject template.
    pub open spec fn wf(self) -> bool {
        self@.ntype == NotificationConfigType::Email ==> self@.subject is Some
    }
}

impl Clone for NotificationConfig {
    fn clone(&self) -> (r: Self)
        ensures
            r@ == self@,
            r.wf() == self.wf(),
    {
        let settings = clone_settings(&self.settings);
        let r = NotificationConfig {
            id: self.id.clone(),
            ntype: self.ntype,
            untype: self.untype,
            subject: match &self.subject {
                Some(s) => Some(s.clone()),
                None => None,
            },
            render: self.render.clone(),
            settings,
        };
        proof {
            assert(r@.subject =~= self@.subject);
        }
        r
    }
}

fn clone_settings(v: &Vec<(String, DefaultReplaceSettings)>) -> (r: Vec<
    (String, DefaultReplaceSettings),
>)
    ensures
        r.deep_view() == v.deep_view(),
        r@ == v@,
{
    let mut out: Vec<(String, DefaultReplaceSettings)> = Vec::new();
    let n = v.len();
    for i in 0..n
        invariant
            n == v@.len(),
            out@.len() == i,
            forall|j: int| 0 <= j < i ==> out@[j] == v@[j],
    {
        out.push((v[i].0.clone(), v[i].1.clone()));
    }
    proof {
        assert(out@ =~= v@);
        assert(out.deep_view() =~= v.deep_view());
    }
    out
}

/// Accumulates the pieces of one notification descriptor.
pub struct NotificationBuilder {
    id: String,
    ntype: NotificationConfigType,
    subject_template: Option<String>,
    render_template: Option<String>,
    untype: Option<UserNotificationType>,
    replace_settings: Vec<(String, DefaultReplaceSettings)>,
}

impl NotificationBuilder {
    pub closed spec fn spec_id(self) -> Seq<char> {
        self.id@
    }

    pub closed spec fn spec_ntype(self) -> NotificationConfigType {
        self.ntype
    }

    pub closed spec fn spec_subject(self) -> Option<Seq<char>> {
        self.subject_template.deep_view()
    }

    pub closed spec fn spec_render(self) -> Option<Seq<char>> {
        self.render_template.deep_view()
    }

    pub closed spec fn spec_untype(self) -> Option<UserNotificationType> {
        self.untype
    }

    pub closed spec fn spec_settings(self) -> Seq<(Seq<char>, ReplaceSettingsView)> {
        self.replace_settings.deep_view()
    }

    /// A fresh builder for the descriptor `id` on channel `ntype`; every
    /// optional piece starts unset.
    pub fn new(id: String, ntype: NotificationConfigType) -> (r: NotificationBuilder)
        ensures
            r.spec_id() == id@,
            r.spec_ntype() == ntype,
            r.spec_subject() is None,
            r.spec_render() is None,
            r.spec_untype() is None,
            r.spec_settings() == Seq::<(Seq<char>, ReplaceSettingsView)>::empty(),
    {
        let r = NotificationBuilder {
            id,
            ntype,
            subject_template: None,
            render_template: None,
            untype: None,
            replace_settings: Vec::new(),
        };
        proof {
            assert(r.spec_settings() =~= Seq::<(Seq<char>, ReplaceSettingsView)>::empty());
        }
        r
    }

    /// Set the subject template path.
    pub fn set_subject_template(&mut self, template: String)
        ensures
            final(self).spec_subject() == Some(template@),
            final(self).spec_id() == old(self).spec_id(),
            final(self).spec_ntype() == old(self).spec_ntype(),
            final(self).spec_render() == old(self).spec_render(),
            final(self).spec_untype() == old(self).spec_untype(),
            final(self).spec_settings() == old(self).spec_settings(),
    {
        self.subject_template = Some(template);
    }

    /// Set the render (body) template path.
    pub fn set_render_template(&mut self, template: String)
        ensures
            final(self).spec_render() == Some(template@),
            final(self).spec_id() == old(self).spec_id(),
            final(self).spec_ntype() == old(self).spec_ntype(),
            final(self).spec_subject() == old(self).spec_subject(),
            final(self).spec_untype() == old(self).spec_untype(),
            final(self).spec_settings() == old(self).spec_settings(),
    {
        self.render_template = Some(template);
    }

    /// Set the notification category.
    pub fn set_notification_type(&mut self, untype: UserNotificationType)
        ensures
            final(self).spec_untype() == Some(untype),
            final(self).spec_id() == old(self).spec_id(),
            final(self).spec_ntype() == old(self).spec_ntype(),
            final(self).spec_subject() == old(self).spec_subject(),
            final(self).spec_render() == old(self).spec_render(),
            final(self).spec_settings() == old(self).spec_settings(),
    {
        self.untype = Some(untype);
    }

    /// Bind the default policy for one template parameter: a repeated name
    /// rebinds its policy rather than adding a second one, so a descriptor
    /// carries at most one policy per parameter name.
    pub fn add_replace_settings(&mut self, key: String, example_value: String, default: bool)
        ensures
            final(self).spec_id() == old(self).spec_id(),
            final(self).spec_ntype() == old(self).spec_ntype(),
            final(self).spec_subject() == old(self).spec_subject(),
            final(self).spec_render() == old(self).spec_render(),
            final(self).spec_untype() == old(self).spec_untype(),
            settings_find(final(self).spec_settings(), key@) == Some(
                ReplaceSettingsView { example_value: example_value@, default },
            ),
            forall|k2: Seq<char>|
                k2 != key@ ==> settings_find(final(self).spec_settings(), k2) == settings_find(
                    old(self).spec_settings(),
                    k2,
                ),
            settings_find(old(self).spec_settings(), key@) is None ==> final(self).spec_settings() == old(self).spec_settings().push(
                (key@, ReplaceSettingsView { example_value: example_value@, default }),
            ),
            settings_find(old(self).spec_settings(), key@) is Some ==> final(self).spec_settings().len() == old(self).spec_settings().len(),
    {
        let ghost pre = self.replace_settings@;
        let ghost kv = key@;
        let ghost rsv = ReplaceSettingsView { example_value: example_value@, default };
        proof {
            assert(old(self).spec_settings() =~= settings_view(pre));
            lemma_settings_find_view(pre, kv);
        }
        assoc_set(
            &mut self.replace_settings,
            key,
            DefaultReplaceSettings { example_value, default },
        );
        proof {
            let post = self.replace_settings@;
            assert(self.replace_settings.deep_view() =~= settings_view(post));
            lemma_settings_find_view(post, kv);
            assert forall|k2: Seq<char>|
                k2 != kv implies settings_find(settings_view(post), k2) == settings_find(
                settings_view(pre),
                k2,
            ) by {
                lemma_settings_find_view(post, k2);
                lemma_settings_find_view(pre, k2);
            }
            if assoc_find(pre, kv) is None {
                assert(settings_view(post) =~= settings_view(pre).push((kv, rsv)));
            }
        }
    }

    /// What building from the accumulated state yields, as a judgement on
    /// the abstract builder state: the render template is demanded always,
    /// a subject template whenever the channel is Email, and a category
    /// always; any failure prevents construction.
    pub open spec fn build_model(self) -> Result<NotificationConfigView, NotificationBuilderError> {
        if self.spec_render() is None {
            Err(NotificationBuilderError::RenderTemplateMissing)
        } else if self.spec_ntype() == NotificationConfigType::Email && self.spec_subject()
            is None {
            Err(NotificationBuilderError::SubjectTemplateMissing)
        } else if self.spec_untype() is None {
            Err(NotificationBuilderError::CategoryMissing)
        } else {
            Ok(
                NotificationConfigView {
                    id: self.spec_id(),
                    ntype: self.spec_ntype(),
                    untype: self.spec_untype()->0,
                    subject: self.spec_subject(),
                    render: self.spec_render()->0,
                    settings: self.spec_settings(),
                },
            )
        }
    }

    /// Validate and construct the descriptor; exactly [`build_model`] of the
    /// builder's state.
    pub fn build(&self) -> (r: Result<NotificationConfig, NotificationBuilderError>)
        ensures
            match r {
                Ok(c) => self.build_model() == Ok::<_, NotificationBuilderError>(c@) && c.wf(),
                Err(e) => self.build_model() == Err::<NotificationConfigView, _>(e),
            },
    {
        let render = match &self.render_template {
            None => {
                return Err(NotificationBuilderError::RenderTemplateMissing);
            },
            Some(t) => t.clone(),
        };
        if matches!(self.ntype, NotificationConfigType::Email) && self.subject_template.is_none() {
            return Err(NotificationBuilderError::SubjectTemplateMissing);
        }
        let untype = match &self.untype {
            None => {
                return Err(NotificationBuilderError::CategoryMissing);
            },
            Some(u) => *u,
        };
        let subject = match &self.subject_template {
            Some(s) => Some(s.clone()),
            None => None,
        };
        let settings = clone_settings(&self.replace_settings);
        let c = NotificationConfig {
            id: self.id.clone(),
            ntype: self.ntype,
            untype,
            subject,
            render,
            settings,
        };
        proof {
            assert(c@.subject =~= self.spec_subject());
        }
        Ok(c)
    }
}

} // verus!
