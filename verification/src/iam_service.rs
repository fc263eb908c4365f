//! The authentication orchestrator: composes the user directory, the token
//! codec with its session store, and the notification dispatcher into the
//! register / login / logout / verify flows, and owns the authentication
//! state transitions.
//!
//! The magic-link credential model is the one in force here: login verifies
//! a previously issued short-lived token whose payload is the user's public
//! identifier, signed under a key namespace of its own; success issues a
//! full login bearer embedding the freshly created session.

use vstd::prelude::*;
use vstd::string::*;

use crate::auth_service::{jwt_claims_of, AuthSerivce};
use crate::config::ConfigService;
use crate::constants::Constants;
use crate::errors::AuthError;
use crate::helpers::extract_user_api_data;
use crate::helpers::{get_render_template_path, get_subject_template_path, user_to_session};
use crate::mailer::MailUser;
use crate::models::{AuthBearer, SessionUser, SessionUserView, UserData};
use crate::notification_builder::{
    NotificationConfig, NotificationConfigType, NotificationConfigView,
    NotificationTriggerSettings, ReplaceSettingsView, UserNotificationType,
};
use crate::notification_service::{EmailTask, NotificationService};
use crate::payload::{dec_su, decode_session_user, enc_su, encode_session_user};
use crate::session::{keep_other_sessions, keep_other_users, SessionView};
use crate::text::dec_digits;
use crate::users::{
    active_email_taken, email_taken, pid_taken, Status, StoreError, UserRecord, UserService,
    UserView,
};

verus! {

/// The notifications the orchestrator registers and triggers.
#[derive(Debug, Clone, Copy, PartialEq, Eq, Structural)]
pub enum IAMNotifications {
    MagicLink,
    VerificationLink,
}

impl IAMNotifications {
    /// The registry id of this notification.
    pub open spec fn spec_id(self) -> Seq<char> {
        match self {
            IAMNotifications::MagicLink => "MagicLink"@,
            IAMNotifications::VerificationLink => "VerificationLink"@,
        }
    }

    /// Render the registry id.
    pub fn id_string(&self) -> (r: String)
        ensures
            r@ == self.spec_id(),
    {
        match self {
            IAMNotifications::MagicLink => String::from_str("MagicLink"),
            IAMNotifications::VerificationLink => String::from_str("VerificationLink"),
        }
    }
}

/// The one template parameter of both link notifications.
pub open spec fn link_param() -> (Seq<char>, ReplaceSettingsView) {
    ("link"@, ReplaceSettingsView { example_value: Seq::<char>::empty(), default: false })
}

/// The shape of the two link descriptors the orchestrator registers: an
/// Email descriptor of the given category whose templates follow the
/// `templates/<name>[_subject].html` convention, carrying exactly the one
/// `link` parameter.
pub open spec fn link_descriptor(
    c: NotificationConfigView,
    category: UserNotificationType,
    name: Seq<char>,
) -> bool {
    &&& c.ntype == NotificationConfigType::Email
    &&& c.untype == category
    &&& c.subject == Some("templates/"@ + name + "_subject.html"@)
    &&& c.render == "templates/"@ + name + ".html"@
    &&& c.settings == seq![link_param()]
}

/// The session-claim fields a bearer for `u` and session `s` carries.
pub open spec fn bearer_claims(u: UserView, s: SessionView) -> SessionUserView {
    SessionUserView {
        session_id: s.session_id,
        pid: u.pid,
        first_name: u.first_name,
        last_name: u.last_name,
        email: u.email,
    }
}

/// Bearer round trip: a bearer issued for the claims `su` — its token
/// carries `(enc_su(su), exp)` under the login secret, as `register` and
/// `login` ensure — verifies, at any instant up to `exp`, to a payload that
/// decodes back to exactly `su`.
pub proof fn lemma_bearer_round_trip(
    token: Seq<char>,
    secret: Seq<char>,
    su: SessionUserView,
    exp: int,
    now: int,
)
    requires
        jwt_claims_of(token, secret) == Some((enc_su(su), exp)),
        now <= exp,
    ensures
        crate::auth_service::verify_model(jwt_claims_of(token, secret), now) == Ok::<
            Seq<char>,
            AuthError,
        >(enc_su(su)),
        dec_su(enc_su(su)) == Some(su),
{
    crate::payload::lemma_dec_enc_su(su);
}

/// Conflict after success: once a registration for `email` has gone
/// through — the directory grew by a record carrying `email` — that email is
/// taken, so a second registration of it answers `Conflict` and changes
/// nothing, by the contract of [`IAMService::register`].
pub proof fn lemma_register_conflict_after_success(pre: Seq<UserView>, u: UserView, email: Seq<char>)
    requires
        u.email == email,
    ensures
        email_taken(pre.push(u), email),
{
    assert(pre.push(u)[pre.len() as int] == u);
}

/// The authentication orchestrator.
pub struct IAMService {
    users: UserService,
    auth: AuthSerivce,
    iam_constants: Constants,
    notification: NotificationService,
}

impl IAMService {
    /// The user records.
    pub closed spec fn users_model(self) -> Seq<UserView> {
        self.users.model()
    }

    /// The live sessions.
    pub closed spec fn sessions_model(self) -> Seq<SessionView> {
        self.auth.sessions_model()
    }

    /// The named-secret configuration in force.
    pub closed spec fn spec_config(self) -> ConfigService {
        self.auth.spec_config()
    }

    /// The notification descriptor registered under `id`.
    pub closed spec fn notification_lookup(self, id: Seq<char>) -> Option<NotificationConfig> {
        self.notification.lookup(id)
    }

    pub closed spec fn wf(self) -> bool {
        &&& self.users.wf()
        &&& self.auth.wf()
        &&& self.notification.wf()
        &&& self.iam_constants.jwt_key_var@ == "IAM_JWT_SECRET"@
        &&& self.iam_constants.magic_link_key_var@ == "IAM_MAGIC_JWT_SECRET"@
        &&& self.iam_constants.login_duration == 604800
        &&& self.iam_constants.magic_link_duration == 900
        &&& self.notification.lookup("MagicLink"@) matches Some(c) && c@.ntype
            == NotificationConfigType::Email && c.wf() && c@.settings == seq![link_param()]
        &&& self.notification.lookup("VerificationLink"@) matches Some(c) && c@.ntype
            == NotificationConfigType::Email && c.wf() && c@.settings == seq![link_param()]
    }

    /// Wire the orchestrator: register the link notifications — before any
    /// trigger can run, since nothing else holds the service yet — and
    /// start with empty user and session stores over the given
    /// configuration.
    pub fn new(config: ConfigService, notification: NotificationService) -> (r: IAMService)
        requires
            config.wf(),
            notification.wf(),
        ensures
            r.wf(),
            r.users_model() == Seq::<UserView>::empty(),
            r.sessions_model() == Seq::<SessionView>::empty(),
            r.spec_config() == config,
            r.notification_lookup("MagicLink"@) matches Some(c) && link_descriptor(
                c@,
                UserNotificationType::LoginLink,
                "magic_link"@,
            ),
            r.notification_lookup("VerificationLink"@) matches Some(c) && link_descriptor(
                c@,
                UserNotificationType::VerificationLink,
                "verification_link"@,
            ),
    {
        let mut notification = notification;

        let mut magic_link_builder = notification.get_builder(
            IAMNotifications::MagicLink.id_string(),
            NotificationConfigType::Email,
        );
        magic_link_builder.set_subject_template(
            get_subject_template_path(String::from_str("magic_link")),
        );
        magic_link_builder.set_render_template(
            get_render_template_path(String::from_str("magic_link")),
        );
        magic_link_builder.add_replace_settings(String::from_str("link"), String::new(), false);
        magic_link_builder.set_notification_type(UserNotificationType::LoginLink);
        let magic_link_notif = magic_link_builder.build().unwrap();
        proof {
            assert(magic_link_notif@.settings =~= seq![link_param()]);
        }
        notification.register(magic_link_notif);

        let mut verification_builder = notification.get_builder(
            IAMNotifications::VerificationLink.id_string(),
            NotificationConfigType::Email,
        );
        verification_builder.set_subject_template(
            get_subject_template_path(String::from_str("verification_link")),
        );
        verification_builder.set_render_template(
            get_render_template_path(String::from_str("verification_link")),
        );
        verification_builder.add_replace_settings(String::from_str("link"), String::new(), false);
        verification_builder.set_notification_type(UserNotificationType::VerificationLink);
        let verification_notif = verification_builder.build().unwrap();
        proof {
            assert(verification_notif@.settings =~= seq![link_param()]);
            reveal_strlit("MagicLink");
            reveal_strlit("VerificationLink");
            assert("MagicLink"@.len() != "VerificationLink"@.len());
        }
        notification.register(verification_notif);

        IAMService {
            users: UserService::new(),
            auth: AuthSerivce::new(config),
            iam_constants: Constants::new(),
            notification,
        }
    }

    /// Issue a session and a signed login bearer for `user`; the ghost
    /// component names the created session.
    ///
    /// The session is created first; if signing then fails, the session
    /// stays (as a server would leave it) and the codec's error propagates.
    fn create_session_for_user(&mut self, user: UserRecord) -> (r: (
        Result<AuthBearer, AuthError>,
        Ghost<SessionView>,
    ))
        requires
            old(self).wf(),
        ensures
            final(self).wf(),
            final(self).users_model() == old(self).users_model(),
            final(self).spec_config() == old(self).spec_config(),
            final(self).notification == old(self).notification,
            final(self).iam_constants == old(self).iam_constants,
            r.0 is Err ==> r.0 == Err::<AuthBearer, AuthError>(AuthError::InternalServerError)
                || r.0 == Err::<AuthBearer, AuthError>(AuthError::JWTDurationError),
            match r.0 {
                Ok(b) => {
                    &&& final(self).sessions_model() == old(self).sessions_model().push(r.1@)
                    &&& r.1@.user_id == user@.id
                    &&& b.token@.len() > 0
                    &&& b.session_user matches Some(su) && su@ == bearer_claims(user@, r.1@)
                    &&& match old(self).spec_config().spec_get("IAM_JWT_SECRET"@) {
                        Some(secret) => jwt_claims_of(b.token@, secret@) matches Some(cl) && cl.0
                            == enc_su(bearer_claims(user@, r.1@)),
                        None => false,
                    }
                },
                Err(_) => final(self).sessions_model() == old(self).sessions_model() || (final(self).sessions_model() == old(self).sessions_model().push(r.1@) && r.1@.user_id
                    == user@.id),
            },
    {
        let ghost uv = user@;
        let user_id = user.id;
        let session = match self.auth.create_session(user_id) {
            Ok(s) => s,
            Err(e) => {
                return (Err(e), Ghost(arbitrary()));
            },
        };
        let ghost sv = session@;
        let session_user = user_to_session(user, session.session_id);
        let payload = encode_session_user(&session_user);
        proof {
            assert(session_user@ == bearer_claims(uv, sv));
        }
        let key = Some(self.iam_constants.jwt_key_var.clone());
        proof {
            assert(crate::auth_service::resolved_key(key) == "IAM_JWT_SECRET"@);
        }
        match self.auth.sign(payload, self.iam_constants.login_duration, key) {
            Ok(jwt) => (Ok(AuthBearer { token: jwt, session_user: Some(session_user) }), Ghost(sv)),
            Err(e) => (Err(e), Ghost(sv)),
        }
    }

    /// Execute the register flow: refuse an email already present — active
    /// or not — with `Conflict` (the storage constraint is the authority,
    /// the lookup only an optimization), otherwise create the user, open a
    /// session and sign a bearer.
    ///
    /// A `Conflict` changes nothing; success adds exactly one user record.
    pub fn register(&mut self, email: String, first_name: String, last_name: String) -> (r: Result<
        AuthBearer,
        AuthError,
    >)
        requires
            old(self).wf(),
        ensures
            final(self).wf(),
            final(self).spec_config() == old(self).spec_config(),
            r == Err::<AuthBearer, AuthError>(AuthError::Conflict) <==> email_taken(
                old(self).users_model(),
                email@,
            ),
            r == Err::<AuthBearer, AuthError>(AuthError::Conflict) ==> *final(self) == *old(self),
            match r {
                Ok(b) => exists|u: UserView, s: SessionView|
                    {
                        &&& final(self).users_model() == #[trigger] old(self).users_model().push(u)
                        &&& u.email == email@ && u.first_name == first_name@ && u.last_name
                            == last_name@
                        &&& u.status == Status::Active && u.password_hash is None
                        &&& !pid_taken(old(self).users_model(), u.pid)
                        &&& final(self).sessions_model() == #[trigger] old(self).sessions_model().push(s)
                        &&& s.user_id == u.id
                        &&& b.session_user matches Some(su) && su@ == bearer_claims(u, s)
                        &&& match old(self).spec_config().spec_get("IAM_JWT_SECRET"@) {
                            Some(secret) => jwt_claims_of(b.token@, secret@) matches Some(cl)
                                && cl.0 == enc_su(bearer_claims(u, s)),
                            None => false,
                        }
                    },
                Err(_) => (final(self).users_model() == old(self).users_model() || exists|
                    u: UserView,
                |
                    final(self).users_model() == #[trigger] old(self).users_model().push(u)
                        && u.email == email@),
            },
            r matches Ok(b) ==> b.token@.len() > 0,
            r is Err ==> final(self).sessions_model() == old(self).sessions_model() || exists|
                s: SessionView,
            | final(self).sessions_model() == #[trigger] old(self).sessions_model().push(s),
    {
        match self.users.find_active_user_by_email(&email) {
            Some(u) => {
                proof {
                    let ghost uv = u@;
                    let i = choose|i: int|
                        0 <= i < self.users.model().len() && self.users.model()[i] == uv;
                    assert(self.users_model()[i].email == email@);
                }
                return Err(AuthError::Conflict);
            },
            None => {},
        }
        let user = match self.users.create_user(email, first_name, last_name, None) {
            Ok(u) => u,
            Err(StoreError::UniqueViolation) => {
                return Err(AuthError::Conflict);
            },
            Err(StoreError::Internal) => {
                return Err(AuthError::InternalServerError);
            },
        };
        let ghost uv = user@;
        let (res, sg) = self.create_session_for_user(user);
        proof {
            if res is Ok {
                assert(self.users_model() == old(self).users_model().push(uv));
                assert(self.sessions_model() == old(self).sessions_model().push(sg@));
            }
        }
        res
    }

    /// Execute the login flow: verify a magic-link token (payload: the
    /// user's public identifier, under the magic-link key namespace),
    /// resolve the user, and issue a session and bearer. A verification
    /// failure propagates the codec's error kind; an unknown identifier is
    /// `NotFound`.
    pub fn login(&mut self, magic_jwt: String) -> (r: Result<AuthBearer, AuthError>)
        requires
            old(self).wf(),
        ensures
            final(self).wf(),
            final(self).users_model() == old(self).users_model(),
            final(self).spec_config() == old(self).spec_config(),
            match old(self).spec_config().spec_get("IAM_MAGIC_JWT_SECRET"@) {
                None => r == Err::<AuthBearer, AuthError>(AuthError::InternalServerError) && final(self).sessions_model() == old(self).sessions_model(),
                Some(secret) => {
                    &&& (jwt_claims_of(magic_jwt@, secret@) is None <==> r == Err::<
                        AuthBearer,
                        AuthError,
                    >(AuthError::JWTVerificationError))
                    &&& (r == Err::<AuthBearer, AuthError>(AuthError::JWTVerificationError)
                        ==> final(self).sessions_model() == old(self).sessions_model())
                    &&& (r == Err::<AuthBearer, AuthError>(AuthError::JWTExpirationError) ==> (
                    jwt_claims_of(magic_jwt@, secret@) is Some && final(self).sessions_model()
                        == old(self).sessions_model()))
                    &&& (r == Err::<AuthBearer, AuthError>(AuthError::NotFound) ==> (jwt_claims_of(
                        magic_jwt@,
                        secret@,
                    ) matches Some(cl) && !pid_taken(old(self).users_model(), cl.0) && final(self).sessions_model() == old(self).sessions_model()))
                    &&& ((jwt_claims_of(magic_jwt@, secret@) matches Some(cl) && !pid_taken(
                        old(self).users_model(),
                        cl.0,
                    )) ==> (r == Err::<AuthBearer, AuthError>(AuthError::NotFound) || r == Err::<
                        AuthBearer,
                        AuthError,
                    >(AuthError::JWTExpirationError)))
                    &&& (r is Err ==> final(self).sessions_model() == old(self).sessions_model()
                        || exists|s2: SessionView|
                        final(self).sessions_model() == #[trigger] old(self).sessions_model().push(s2))
                    &&& (r matches Ok(b) ==> b.token@.len() > 0)
                    &&& match r {
                        Ok(b) => jwt_claims_of(magic_jwt@, secret@) matches Some(cl) && exists|
                            u: UserView,
                            s: SessionView,
                        |
                            {
                                &&& u.pid == cl.0
                                &&& pid_taken(old(self).users_model(), cl.0)
                                &&& final(self).sessions_model() == old(self).sessions_model().push(
                                    s,
                                )
                                &&& s.user_id == u.id
                                &&& b.session_user matches Some(su) && su@ == #[trigger] bearer_claims(
                                    u,
                                    s,
                                )
                                &&& match old(self).spec_config().spec_get("IAM_JWT_SECRET"@) {
                                    Some(login_secret) => jwt_claims_of(b.token@, login_secret@)
                                        matches Some(cl2) && cl2.0 == enc_su(bearer_claims(u, s)),
                                    None => false,
                                }
                            },
                        Err(_) => true,
                    }
                },
            },
    {
        let key = Some(self.iam_constants.magic_link_key_var.clone());
        proof {
            assert(crate::auth_service::resolved_key(key) == "IAM_MAGIC_JWT_SECRET"@);
        }
        let pid = match self.auth.verify(magic_jwt, key) {
            Ok(p) => p,
            Err(e) => {
                return Err(e);
            },
        };
        let user = match self.users.find_user_by_pid(&pid) {
            Some(u) => u,
            None => {
                return Err(AuthError::NotFound);
            },
        };
        let ghost uv = user@;
        proof {
            let i = choose|i: int|
                0 <= i < self.users.model().len() && self.users.model()[i] == uv;
            assert(pid_taken(self.users_model(), uv.pid));
        }
        let (res, sg) = self.create_session_for_user(user);
        proof {
            if res is Ok {
                assert(self.sessions_model() == old(self).sessions_model().push(sg@));
                assert(sg@.user_id == uv.id);
            }
        }
        res
    }

    /// Prepare a magic-link notification for `email`.
    ///
    /// Anti-enumeration, deliberately: the outcome never depends on whether
    /// the email names an account. With the magic-link secret configured, an
    /// unknown or inactive email yields the same success outcome as a known
    /// one — `Ok(None)`, nothing to send; without it, every email yields the
    /// same `InternalServerError`, because the secret is resolved before the
    /// directory is even consulted. For a known active user the prepared
    /// mail carries a freshly signed short-lived token under the magic-link
    /// key as its `link` parameter.
    pub fn send_login_link(&self, email: String) -> (r: Result<Option<EmailTask>, AuthError>)
        requires
            self.wf(),
        ensures
            match self.spec_config().spec_get("IAM_MAGIC_JWT_SECRET"@) {
                None => r == Err::<Option<EmailTask>, AuthError>(AuthError::InternalServerError),
                Some(secret) => {
                    &&& (!active_email_taken(self.users_model(), email@) ==> r == Ok::<
                        Option<EmailTask>,
                        AuthError,
                    >(None))
                    &&& (r is Err ==> r == Err::<Option<EmailTask>, AuthError>(
                        AuthError::InternalServerError,
                    ) && active_email_taken(self.users_model(), email@))
                    &&& match r {
                        Ok(Some(task)) => {
                            &&& active_email_taken(self.users_model(), email@)
                            &&& task.recipient.spec_email() == email@
                            &&& exists|i: int|
                                {
                                    &&& 0 <= i < self.users_model().len()
                                    &&& (#[trigger] self.users_model()[i]).email == email@
                                    &&& task.params.deep_view().len() == 1
                                    &&& task.params.deep_view()[0].0 == "link"@
                                    &&& jwt_claims_of(task.params.deep_view()[0].1, secret@)
                                        matches Some(cl) && cl.0 == self.users_model()[i].pid
                                }
                        },
                        _ => true,
                    }
                },
            },
    {
        let magic_key = Some(self.iam_constants.magic_link_key_var.clone());
        proof {
            assert(crate::auth_service::resolved_key(magic_key) == "IAM_MAGIC_JWT_SECRET"@);
        }
        if !self.auth.secret_present(&magic_key) {
            return Err(AuthError::InternalServerError);
        }
        let user = match self.users.find_active_user_by_email(&email) {
            Some(u) => u,
            None => {
                return Ok(None);
            },
        };
        let ghost uv = user@;
        proof {
            let i = choose|i: int|
                0 <= i < self.users.model().len() && self.users.model()[i] == uv;
            assert(0 <= i < self.users_model().len() && self.users_model()[i].email == email@);
            assert(self.users_model()[i].status == Status::Active);
        }
        match self.prepare_link_task(user, IAMNotifications::MagicLink) {
            Ok(task) => {
                proof {
                    let i = choose|i: int|
                        0 <= i < self.users.model().len() && self.users.model()[i] == uv;
                    assert(0 <= i < self.users_model().len() && self.users_model()[i].email
                        == email@ && self.users_model()[i].pid == uv.pid);
                }
                Ok(Some(task))
            },
            Err(e) => Err(e),
        }
    }

    /// Prepare a verification-link notification for `email`.
    ///
    /// Unlike [`Self::send_login_link`], an unknown or inactive email is
    /// `NotFound` — an intentional asymmetry: verification links are
    /// triggered from an already semi-authenticated context, so hiding
    /// account existence buys nothing here.
    pub fn send_verification_link(&self, email: String) -> (r: Result<EmailTask, AuthError>)
        requires
            self.wf(),
        ensures
            r == Err::<EmailTask, AuthError>(AuthError::NotFound) <==> !active_email_taken(
                self.users_model(),
                email@,
            ),
            r is Err ==> r == Err::<EmailTask, AuthError>(AuthError::NotFound) || r == Err::<
                EmailTask,
                AuthError,
            >(AuthError::InternalServerError),
            match r {
                Ok(task) => {
                    &&& active_email_taken(self.users_model(), email@)
                    &&& task.recipient.spec_email() == email@
                    &&& match self.spec_config().spec_get("IAM_MAGIC_JWT_SECRET"@) {
                        Some(secret) => exists|i: int|
                            {
                                &&& 0 <= i < self.users_model().len()
                                &&& (#[trigger] self.users_model()[i]).email == email@
                                &&& task.params.deep_view().len() == 1
                                &&& task.params.deep_view()[0].0 == "link"@
                                &&& jwt_claims_of(task.params.deep_view()[0].1, secret@) matches
                                    Some(cl) && cl.0 == self.users_model()[i].pid
                            },
                        None => false,
                    }
                },
                _ => true,
            },
    {
        let user = match self.users.find_active_user_by_email(&email) {
            Some(u) => u,
            None => {
                return Err(AuthError::NotFound);
            },
        };
        let ghost uv = user@;
        proof {
            let i = choose|i: int|
                0 <= i < self.users.model().len() && self.users.model()[i] == uv;
            assert(0 <= i < self.users_model().len() && self.users_model()[i].email == email@);
            assert(self.users_model()[i].status == Status::Active);
        }
        match self.prepare_link_task(user, IAMNotifications::VerificationLink) {
            Ok(task) => {
                proof {
                    let i = choose|i: int|
                        0 <= i < self.users.model().len() && self.users.model()[i] == uv;
                    assert(0 <= i < self.users_model().len() && self.users_model()[i].email
                        == email@ && self.users_model()[i].pid == uv.pid);
                }
                Ok(task)
            },
            Err(e) => Err(e),
        }
    }

    /// Sign a short-lived token naming `user` and fold it, as the `link`
    /// parameter, into the prepared mail task of the given notification.
    fn prepare_link_task(&self, user: UserRecord, which: IAMNotifications) -> (r: Result<
        EmailTask,
        AuthError,
    >)
        requires
            self.wf(),
        ensures
            r is Err ==> r == Err::<EmailTask, AuthError>(AuthError::InternalServerError),
            match r {
                Ok(task) => {
                    &&& task.recipient.spec_email() == user@.email
                    &&& match self.spec_config().spec_get("IAM_MAGIC_JWT_SECRET"@) {
                        Some(secret) => {
                            &&& task.params.deep_view().len() == 1
                            &&& task.params.deep_view()[0].0 == "link"@
                            &&& jwt_claims_of(task.params.deep_view()[0].1, secret@) matches Some(
                                cl,
                            ) && cl.0 == user@.pid
                        },
                        None => false,
                    }
                },
                Err(_) => true,
            },
    {
        let key = Some(self.iam_constants.magic_link_key_var.clone());
        proof {
            assert(crate::auth_service::resolved_key(key) == "IAM_MAGIC_JWT_SECRET"@);
        }
        let token = match self.auth.sign(
            user.pid.clone(),
            self.iam_constants.magic_link_duration,
            key,
        ) {
            Ok(t) => t,
            Err(_) => {
                return Err(AuthError::InternalServerError);
            },
        };
        let ghost tokv = token@;
        let mut display_name = user.first_name.clone();
        display_name.append(" ");
        display_name.append(user.last_name.as_str());
        let recipient = MailUser::new(user.email.clone(), Some(display_name));
        let mut params: Vec<(String, String)> = Vec::new();
        let link_key = String::from_str("link");
        params.push((link_key, token));
        proof {
            assert(params@[0].0@ == "link"@);
            assert(crate::kv::assoc_find(params@, "link"@) matches Some(t) && t@ == tokv);
        }
        let settings = NotificationTriggerSettings {
            email: Some(recipient),
            user_id: user.id,
            params,
        };
        match self.notification.trigger(which.id_string(), settings) {
            Ok(task) => {
                proof {
                    assert(task.params.deep_view().len() == 1);
                    assert(task.params.deep_view()[0].0 == link_param().0);
                    assert(task.params.deep_view()[0].1 == tokv);
                }
                Ok(task)
            },
            Err(_) => Err(AuthError::InternalServerError),
        }
    }

    /// Validate a login bearer and surface its embedded claims.
    ///
    /// This checks signature and expiry only: it does not consult the
    /// session store, so a bearer whose session was deleted but whose
    /// expiry has not passed still verifies. That gap is deliberate here —
    /// making logout authoritative would take a store existence check at
    /// this point.
    pub fn verify_token(&self, jwt: String) -> (r: Result<SessionUser, AuthError>)
        requires
            self.wf(),
        ensures
            match self.spec_config().spec_get("IAM_JWT_SECRET"@) {
                None => r == Err::<SessionUser, AuthError>(AuthError::InternalServerError),
                Some(secret) => {
                    &&& (jwt_claims_of(jwt@, secret@) is None ==> r == Err::<
                        SessionUser,
                        AuthError,
                    >(AuthError::JWTVerificationError))
                    &&& (r matches Ok(su) ==> jwt_claims_of(jwt@, secret@) matches Some(cl)
                        && dec_su(cl.0) == Some(su@))
                    &&& (r is Err ==> r == Err::<SessionUser, AuthError>(
                        AuthError::JWTVerificationError,
                    ) || r == Err::<SessionUser, AuthError>(AuthError::JWTExpirationError))
                },
            },
    {
        let key = Some(self.iam_constants.jwt_key_var.clone());
        proof {
            assert(crate::auth_service::resolved_key(key) == "IAM_JWT_SECRET"@);
        }
        let payload = match self.auth.verify(jwt, key) {
            Ok(p) => p,
            Err(e) => {
                return Err(e);
            },
        };
        match decode_session_user(payload.as_str()) {
            Some(su) => Ok(su),
            None => Err(AuthError::JWTVerificationError),
        }
    }

    /// Resolve the full record behind a session's claims and strip it to
    /// its public shape: the result type has no password field, so stored
    /// password material cannot cross this boundary.
    pub fn get_user(&self, session_user: &SessionUser) -> (r: Result<UserData, AuthError>)
        requires
            self.wf(),
        ensures
            r == Err::<UserData, AuthError>(AuthError::NotFound) <==> !pid_taken(
                self.users_model(),
                session_user@.pid,
            ),
            r is Err ==> r == Err::<UserData, AuthError>(AuthError::NotFound),
            r matches Ok(d) ==> exists|i: int|
                {
                    &&& 0 <= i < self.users_model().len()
                    &&& (#[trigger] self.users_model()[i]).pid == session_user@.pid
                    &&& d@.pid == self.users_model()[i].pid
                    &&& d@.first_name == self.users_model()[i].first_name
                    &&& d@.last_name == self.users_model()[i].last_name
                    &&& d@.email == self.users_model()[i].email
                    &&& d@.created_at == dec_digits(self.users_model()[i].created_at as nat)
                    &&& d@.updated_at == dec_digits(self.users_model()[i].updated_at as nat)
                },
    {
        let user = match self.users.find_user_by_pid(&session_user.pid) {
            Some(u) => u,
            None => {
                return Err(AuthError::NotFound);
            },
        };
        let ghost uv = user@;
        let d = extract_user_api_data(user);
        proof {
            let i = choose|i: int|
                0 <= i < self.users.model().len() && self.users.model()[i] == uv;
            assert(0 <= i < self.users_model().len() && self.users_model()[i].pid
                == session_user@.pid && self.users_model()[i] == uv);
        }
        Ok(d)
    }

    /// Close the account behind a session's claims: mark the record
    /// `Inactive` and delete every one of its sessions. Neither store can
    /// fail between the two steps, so the account is never left half
    /// closed.
    pub fn close_account(&mut self, session_user: &SessionUser) -> (r: Result<(), AuthError>)
        requires
            old(self).wf(),
        ensures
            final(self).wf(),
            final(self).spec_config() == old(self).spec_config(),
            r == Err::<(), AuthError>(AuthError::NotFound) <==> !pid_taken(
                old(self).users_model(),
                session_user@.pid,
            ),
            r is Err ==> r == Err::<(), AuthError>(AuthError::NotFound) && *final(self) == *old(self),
            r is Ok ==> exists|i: int, u: UserView|
                {
                    &&& 0 <= i < old(self).users_model().len()
                    &&& final(self).users_model() == #[trigger] old(self).users_model().update(
                        i,
                        u,
                    )
                    &&& old(self).users_model()[i].pid == session_user@.pid
                    &&& u == (UserView {
                        status: Status::Inactive,
                        updated_at: u.updated_at,
                        ..old(self).users_model()[i]
                    })
                    &&& final(self).sessions_model() == old(self).sessions_model().filter(
                        keep_other_users(old(self).users_model()[i].id),
                    )
                },
    {
        let updated = match self.users.set_status_by_pid(&session_user.pid, Status::Inactive) {
            Some(u) => u,
            None => {
                return Err(AuthError::NotFound);
            },
        };
        let ghost uv = updated@;
        let ghost i = choose|i: int|
            {
                &&& 0 <= i < old(self).users.model().len()
                &&& old(self).users.model()[i].pid == session_user@.pid
                &&& uv == (UserView {
                    status: Status::Inactive,
                    updated_at: uv.updated_at,
                    ..old(self).users.model()[i]
                })
                &&& #[trigger] self.users.model() == old(self).users.model().update(i, uv)
            };
        match self.auth.delete_all_sessions(updated.id) {
            Ok(()) => {
                proof {
                    assert(uv.id == old(self).users_model()[i].id);
                    assert(self.users_model() == old(self).users_model().update(i, uv));
                }
                Ok(())
            },
            Err(e) => Err(e),
        }
    }

    /// Delete the single session named by the presented bearer's claims;
    /// idempotent, like the deletion it delegates to.
    pub fn logout(&mut self, session_user: &SessionUser) -> (r: Result<(), AuthError>)
        requires
            old(self).wf(),
        ensures
            final(self).wf(),
            final(self).users_model() == old(self).users_model(),
            final(self).spec_config() == old(self).spec_config(),
            r is Ok,
            final(self).sessions_model() == old(self).sessions_model().filter(
                keep_other_sessions(session_user@.session_id),
            ),
    {
        self.auth.delete_session(&session_user.session_id)
    }
}

} // verus!
