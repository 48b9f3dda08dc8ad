//! Applications: bot accounts, their sessions and their puppets.

use crate::data::DbUserCreate;
use crate::error::{Error, Reason};
use crate::ids::{random_id_string, ApplicationId, Time, UserId};
use crate::media::{Bot, BotAccess, ExternalPlatform, Puppet};
use crate::session::SessionStatus;
use vstd::prelude::*;

verus! {

/// An application.
#[derive(Debug, PartialEq, Eq, Hash)]
pub struct Application {
    pub id: ApplicationId,
    pub owner_id: UserId,
    pub name: String,
    pub description: Option<String>,
    pub bridge: bool,
    pub public: bool,
}

/// A request to create an application.
#[derive(Debug, PartialEq, Eq, Hash)]
pub struct ApplicationCreate {
    pub name: String,
    pub description: Option<String>,
    pub bridge: bool,
    pub public: bool,
}

/// A request to create a puppet.
#[derive(Debug, PartialEq, Eq, Hash)]
pub struct PuppetCreate {
    pub name: String,
    pub description: Option<String>,
    pub bot: bool,
    pub system: bool,
}

/// What a request for a puppet comes to.
#[derive(Debug, PartialEq, Eq, Hash)]
pub enum PuppetPlan {
    /// The puppet exists: it is this user.
    Existing(UserId),
    /// The puppet is to be created from this record.
    Create(DbUserCreate),
}

/// The record of the bot user that stands for a new application of
/// `auth_user_id`: a private bot of that user, registered at `now`.
pub open spec fn spec_bot_user(auth_user_id: UserId, json: ApplicationCreate, now: Time)
    -> DbUserCreate {
    DbUserCreate {
        parent_id: Some(auth_user_id),
        name: json.name,
        description: json.description,
        bot: Some(
            Bot { owner_id: auth_user_id, access: BotAccess::Private, is_bridge: json.bridge },
        ),
        puppet: None,
        registered_at: Some(now),
    }
}

/// The record of a new puppet of `auth_user_id`: a user of the caller, no
/// bot, the stand-in of the Discord user `puppet_id`, registered at `now`.
pub open spec fn spec_puppet_user(
    auth_user_id: UserId,
    puppet_id: String,
    json: PuppetCreate,
    now: Time,
) -> DbUserCreate {
    DbUserCreate {
        parent_id: Some(auth_user_id),
        name: json.name,
        description: json.description,
        bot: None,
        puppet: Some(
            Puppet {
                owner_id: auth_user_id,
                external_platform: ExternalPlatform::Discord,
                external_id: puppet_id,
                external_url: None,
                alias_id: None,
            },
        ),
        registered_at: Some(now),
    }
}

/// Decides a request to create an application at the time `now`. Public
/// applications are not provided. The result is the record of the bot user
/// that stands for the application: a private bot of the caller, registered
/// at `now`.
pub fn app_create(auth_user_id: UserId, json: &ApplicationCreate, now: Time) -> (r: Result<
    DbUserCreate,
    Error,
>)
    ensures
        r == if json.public {
            Err::<DbUserCreate, Error>(Error::Unimplemented)
        } else {
            Ok::<DbUserCreate, Error>(spec_bot_user(auth_user_id, *json, now))
        },
{
    if json.public {
        return Err(Error::Unimplemented);
    }
    Ok(
        DbUserCreate {
            parent_id: Some(auth_user_id),
            name: json.name.clone(),
            description: match &json.description {
                Some(d) => Some(d.clone()),
                None => None,
            },
            bot: Some(
                Bot { owner_id: auth_user_id, access: BotAccess::Private, is_bridge: json.bridge },
            ),
            puppet: None,
            registered_at: Some(now),
        },
    )
}

/// The application that stands behind the bot user `user_id`, created by
/// `auth_user_id` from `json`. The application goes by the user's
/// identifier.
pub fn application(user_id: UserId, auth_user_id: UserId, json: ApplicationCreate) -> (r:
    Application)
    ensures
        r == (Application {
            id: ApplicationId(user_id.0),
            owner_id: auth_user_id,
            name: json.name,
            description: json.description,
            bridge: json.bridge,
            public: json.public,
        }),
{
    Application {
        id: ApplicationId(user_id.0),
        owner_id: auth_user_id,
        name: json.name,
        description: json.description,
        bridge: json.bridge,
        public: json.public,
    }
}

/// Decides a request to read an application: to anybody but its owner it
/// does not exist.
pub fn app_get(app: Application, auth_user_id: UserId) -> (r: Result<Application, Error>)
    ensures
        r == if app.owner_id == auth_user_id {
            Ok::<Application, Error>(app)
        } else {
            Err::<Application, Error>(Error::NotFound)
        },
{
    if app.owner_id == auth_user_id {
        Ok(app)
    } else {
        Err(Error::NotFound)
    }
}

/// Changing an application is not provided.
pub fn app_patch() -> (r: Result<(), Error>)
    ensures
        r == Err::<(), Error>(Error::Unimplemented),
{
    Err(Error::Unimplemented)
}

/// Decides a request to delete an application: the owner's request deletes
/// the application and the user `r` that stands for it; anybody else's does
/// nothing, and is answered the same.
pub fn app_delete(app: &Application, auth_user_id: UserId) -> (r: Option<UserId>)
    ensures
        r == if app.owner_id == auth_user_id {
            Some(UserId(app.id.0))
        } else {
            None
        },
{
    if app.owner_id == auth_user_id {
        Some(UserId(app.id.0))
    } else {
        None
    }
}

/// Decides a request to open a session for an application: only its owner
/// may. The result is a fresh random token of 36 characters and the status
/// that the session is given: authorized as the application's user.
pub fn app_create_session(app: &Application, auth_user_id: UserId) -> (r: Result<
    (String, SessionStatus),
    Error,
>)
    ensures
        app.owner_id != auth_user_id ==> r is Err && r->Err_0 == Error::MissingPermissions,
        app.owner_id == auth_user_id ==> r is Ok && r->Ok_0.0@.len() == 36 && r->Ok_0.1
            == (SessionStatus::Authorized { user_id: UserId(app.id.0) }),
{
    if app.owner_id == auth_user_id {
        let token = random_id_string();
        Ok((token, SessionStatus::Authorized { user_id: UserId(app.id.0) }))
    } else {
        Err(Error::MissingPermissions)
    }
}

/// The first question of a request for a puppet: an application may ask for
/// its own puppets only.
pub fn puppet_ensure_caller(app_id: ApplicationId, auth_user_id: UserId) -> (r: Result<(), Error>)
    ensures
        r == if app_id.0 == auth_user_id.0 {
            Ok::<(), Error>(())
        } else {
            Err::<(), Error>(Error::MissingPermissions)
        },
{
    if app_id.0 != auth_user_id.0 {
        return Err(Error::MissingPermissions);
    }
    Ok(())
}

/// The second question of a request for a puppet: the caller must be a bot
/// that is a bridge. `bot` is what makes the caller a bot, if anything.
pub fn puppet_ensure_parent(bot: Option<Bot>) -> (r: Result<(), Error>)
    ensures
        r == if bot matches Some(b) && b.is_bridge {
            Ok::<(), Error>(())
        } else {
            Err::<(), Error>(Error::BadStatic(Reason::NotABridge))
        },
{
    match bot {
        Some(b) => if b.is_bridge {
            Ok(())
        } else {
            Err(Error::BadStatic(Reason::NotABridge))
        },
        None => Err(Error::BadStatic(Reason::NotABridge)),
    }
}

/// Decides what a request for the puppet `puppet_id` comes to at the time
/// `now`, once the caller has passed both questions. `existing` is the user
/// that already stands for the puppet, if any. A new puppet is a user of
/// the caller, no bot, the stand-in of the Discord user `puppet_id`,
/// registered at `now`.
pub fn puppet_ensure(
    auth_user_id: UserId,
    existing: Option<UserId>,
    puppet_id: String,
    json: PuppetCreate,
    now: Time,
) -> (r: PuppetPlan)
    ensures
        r == match existing {
            Some(id) => PuppetPlan::Existing(id),
            None => PuppetPlan::Create(spec_puppet_user(auth_user_id, puppet_id, json, now)),
        },
{
    if let Some(id) = existing {
        return PuppetPlan::Existing(id);
    }
    PuppetPlan::Create(
        DbUserCreate {
            parent_id: Some(auth_user_id),
            name: json.name,
            description: json.description,
            bot: None,
            puppet: Some(
                Puppet {
                    owner_id: auth_user_id,
                    external_platform: ExternalPlatform::Discord,
                    external_id: puppet_id,
                    external_url: None,
                    alias_id: None,
                },
            ),
            registered_at: Some(now),
        },
    )
}

} // verus!
