//! The configuration file of the bot (`config.toml`) and what is read from it.
use std::collections::HashSet;

use vstd::prelude::*;

use crate::text::{decimal, push_decimal};

verus! {

broadcast use vstd::std_specs::hash::group_hash_axioms;

/// The whole configuration file.
pub struct Config {
    pub bot: BotConfig,
    pub owner: Option<Vec<OwnerConfig>>,
    pub database: DatabaseConfig,
}

/// The `[bot]` table.
pub struct BotConfig {
    pub default_prefix: Option<String>,
    pub id: Option<u64>,
    pub invite_url: Option<String>,
    pub token: Option<String>,
}

/// One `[[owner]]` entry.
pub struct OwnerConfig {
    pub id: u64,
    pub name: Option<String>,
}

/// The `[database]` table.
pub struct DatabaseConfig {
    pub database_url: Option<String>,
    pub name: Option<String>,
    pub port: Option<u16>,
    pub username: Option<String>,
    pub password: Option<String>,
    pub address: Option<String>,
}

/// A setting that the bot cannot start without is missing from the file.
#[derive(PartialEq, Eq, Structural, Clone, Copy, Debug)]
pub enum ConfigError {
    MissingToken,
    MissingDefaultPrefix,
    MissingBotId,
    MissingInviteUrl,
    MissingDatabaseSettings,
}

/// The line the bot prints (in red) before it stops on each error.
pub open spec fn spec_config_error_message(e: ConfigError) -> Seq<char> {
    match e {
        ConfigError::MissingToken => "Bot token is not declared in the config file."@,
        ConfigError::MissingDefaultPrefix => "Bot prefix is not declared in the config file."@,
        ConfigError::MissingBotId => "Bot id is not declared in the config file."@,
        ConfigError::MissingInviteUrl => "Bot invite url is not declared in the config file."@,
        ConfigError::MissingDatabaseSettings => "Database settings not set."@,
    }
}

impl ConfigError {
    /// The message printed for this error.
    pub fn message(&self) -> (res: String)
        ensures
            res@ == spec_config_error_message(*self),
    {
        match self {
            ConfigError::MissingToken => String::from_str(
                "Bot token is not declared in the config file.",
            ),
            ConfigError::MissingDefaultPrefix => String::from_str(
                "Bot prefix is not declared in the config file.",
            ),
            ConfigError::MissingBotId => String::from_str(
                "Bot id is not declared in the config file.",
            ),
            ConfigError::MissingInviteUrl => String::from_str(
                "Bot invite url is not declared in the config file.",
            ),
            ConfigError::MissingDatabaseSettings => String::from_str("Database settings not set."),
        }
    }
}

/// A required text setting: its text, or the error that names it.
pub open spec fn spec_required_text(o: Option<String>, e: ConfigError) -> Result<Seq<char>, ConfigError> {
    match o {
        Some(s) => Ok(s@),
        None => Err(e),
    }
}

/// The text of a result, viewed.
pub open spec fn result_text_view(r: Result<String, ConfigError>) -> Result<Seq<char>, ConfigError> {
    match r {
        Ok(s) => Ok(s@),
        Err(e) => Err(e),
    }
}

fn required_text(o: &Option<String>, e: ConfigError) -> (res: Result<String, ConfigError>)
    ensures
        result_text_view(res) == spec_required_text(*o, e),
{
    match o {
        Some(s) => Ok(s.clone()),
        None => Err(e),
    }
}

/// The ids of the configured owners.
pub open spec fn spec_owner_ids(owners: Option<Vec<OwnerConfig>>) -> Set<u64> {
    match owners {
        Some(v) => Set::new(|id: u64| exists|i: int| 0 <= i < v@.len() && #[trigger] v@[i].id == id),
        None => Set::empty(),
    }
}

/// The text of an optional setting, or `default` where it is absent.
pub open spec fn text_or(o: Option<String>, default: Seq<char>) -> Seq<char> {
    match o {
        Some(s) => s@,
        None => default,
    }
}

/// The database URL the bot connects to: `database_url` when it is given;
/// else, when `name` is given, a `postgresql://` URL built from the user name
/// and password (empty by default), the address (`localhost` by default), the
/// port (5432 by default) and the name; else none.
pub open spec fn spec_database_url(db: DatabaseConfig) -> Option<Seq<char>> {
    match db.database_url {
        Some(url) => Some(url@),
        None => match db.name {
            Some(name) => Some(
                "postgresql://"@ + text_or(db.username, seq![]) + seq![':'] + text_or(
                    db.password,
                    seq![],
                ) + seq!['@'] + text_or(db.address, "localhost"@) + seq![':'] + decimal(
                    (match db.port {
                        Some(p) => p,
                        None => 5432u16,
                    }) as nat,
                ) + seq!['/'] + name@,
            ),
            None => None,
        },
    }
}

fn append_or(out: &mut String, o: &Option<String>, default: &str)
    ensures
        final(out)@ == old(out)@ + text_or(*o, default@),
{
    match o {
        Some(s) => out.append(s.as_str()),
        None => out.append(default),
    }
}

impl Config {
    /// The bot token, or `MissingToken` when the file has none.
    pub fn bot_token(&self) -> (res: Result<String, ConfigError>)
        ensures
            result_text_view(res) == spec_required_text(self.bot.token, ConfigError::MissingToken),
            self.bot.token matches Some(v) ==> (res matches Ok(r) && r@ == v@),
            self.bot.token is None ==> res == Err::<String, ConfigError>(ConfigError::MissingToken),
    {
        required_text(&self.bot.token, ConfigError::MissingToken)
    }

    /// The default command prefix, or `MissingDefaultPrefix`.
    pub fn bot_default_prefix(&self) -> (res: Result<String, ConfigError>)
        ensures
            result_text_view(res) == spec_required_text(
                self.bot.default_prefix,
                ConfigError::MissingDefaultPrefix,
            ),
            self.bot.default_prefix matches Some(v) ==> (res matches Ok(r) && r@ == v@),
            self.bot.default_prefix is None ==> res == Err::<String, ConfigError>(ConfigError::MissingDefaultPrefix),
    {
        required_text(&self.bot.default_prefix, ConfigError::MissingDefaultPrefix)
    }

    /// The bot's user id, or `MissingBotId`.
    pub fn bot_id(&self) -> (res: Result<u64, ConfigError>)
        ensures
            res == (match self.bot.id {
                Some(id) => Ok(id),
                None => Err(ConfigError::MissingBotId),
            }),
    {
        match self.bot.id {
            Some(id) => Ok(id),
            None => Err(ConfigError::MissingBotId),
        }
    }

    /// The invite URL, or `MissingInviteUrl`.
    pub fn invite_url(&self) -> (res: Result<String, ConfigError>)
        ensures
            result_text_view(res) == spec_required_text(
                self.bot.invite_url,
                ConfigError::MissingInviteUrl,
            ),
            self.bot.invite_url matches Some(v) ==> (res matches Ok(r) && r@ == v@),
            self.bot.invite_url is None ==> res == Err::<String, ConfigError>(ConfigError::MissingInviteUrl),
    {
        required_text(&self.bot.invite_url, ConfigError::MissingInviteUrl)
    }

    /// The set of owner ids; empty when the file lists no owner.
    pub fn get_owners(&self) -> (res: HashSet<u64>)
        ensures
            res@ == spec_owner_ids(self.owner),
            self.owner is None ==> res@.is_empty(),
            self.owner matches Some(list) ==> (forall|i: int|
                0 <= i < list@.len() ==> res@.contains(#[trigger] list@[i].id)),
            self.owner matches Some(list) ==> (forall|id: u64|
                res@.contains(id) ==> exists|i: int| 0 <= i < list@.len() && #[trigger] list@[i].id == id),
    {
        let mut owners: HashSet<u64> = HashSet::new();
        match &self.owner {
            Some(list) => {
                let mut i: usize = 0;
                while i < list.len()
                    invariant
                        i <= list@.len(),
                        owners@ == Set::new(
                            |id: u64| exists|k: int| 0 <= k < i && #[trigger] list@[k].id == id,
                        ),
                    decreases list@.len() - i,
                {
                    let ghost before = owners@;
                    owners.insert(list[i].id);
                    assert(owners@ =~= Set::new(
                        |id: u64| exists|k: int| 0 <= k < i + 1 && #[trigger] list@[k].id == id,
                    )) by {
                        assert forall|id: u64| owners@.contains(id) implies (exists|k: int|
                            0 <= k < i + 1 && #[trigger] list@[k].id == id) by {
                            if id == list@[i as int].id {
                            } else {
                                assert(before.contains(id));
                            }
                        }
                        assert forall|id: u64| (exists|k: int| 0 <= k < i + 1 && #[trigger] list@[k].id == id)
                            implies owners@.contains(id) by {
                            let k = choose|k: int| 0 <= k < i + 1 && #[trigger] list@[k].id == id;
                            if k < i {
                                assert(before.contains(id));
                            }
                        }
                    }
                    i = i + 1;
                }
                assert(owners@ =~= spec_owner_ids(self.owner));
            },
            None => {
                assert(owners@ =~= spec_owner_ids(self.owner));
            },
        }
        owners
    }
}

impl DatabaseConfig {
    /// The database URL (see `spec_database_url`), or `MissingDatabaseSettings`
    /// when neither a URL nor a database name is given.
    pub fn get_database_url(&self) -> (res: Result<String, ConfigError>)
        ensures
            match res {
                Ok(url) => spec_database_url(*self) == Some(url@),
                Err(e) => spec_database_url(*self) is None && e
                    == ConfigError::MissingDatabaseSettings,
            },
            self.database_url matches Some(u) ==> (res matches Ok(r) && r@ == u@),
            self.database_url is None && self.name is None ==> res
                == Err::<String, ConfigError>(ConfigError::MissingDatabaseSettings),
    {
        if let Some(url) = &self.database_url {
            return Ok(url.clone());
        }
        match &self.name {
            Some(name) => {
                let mut url = String::from_str("postgresql://");
                append_or(&mut url, &self.username, "");
                url.append(":");
                append_or(&mut url, &self.password, "");
                url.append("@");
                append_or(&mut url, &self.address, "localhost");
                url.append(":");
                let port: u16 = match self.port {
                    Some(p) => p,
                    None => 5432,
                };
                push_decimal(&mut url, port as u64);
                url.append("/");
                url.append(name.as_str());
                proof {
                    reveal_strlit("");
                    reveal_strlit(":");
                    reveal_strlit("@");
                    reveal_strlit("/");
                }
                Ok(url)
            },
            None => Err(ConfigError::MissingDatabaseSettings),
        }
    }
}


/// Without an explicit URL but with a database name, the URL is
/// `postgresql://<user>:<password>@<address>:<port>/<name>`, where each part
/// comes from its own setting alone: the user name and password (empty when
/// absent), the address (`localhost` when absent), the port in decimal (5432
/// when absent). With an explicit URL, that URL is used whatever else is set;
/// with neither, there is none.
pub proof fn lemma_database_url_parts(db: DatabaseConfig)
    ensures
        db.database_url matches Some(url) ==> spec_database_url(db) == Some(url@),
        db.database_url is None && db.name is None ==> spec_database_url(db) is None,
        db.database_url is None && db.name is Some ==> spec_database_url(db) == Some(
            "postgresql://"@ + (match db.username {
                Some(u) => u@,
                None => Seq::<char>::empty(),
            }) + seq![':'] + (match db.password {
                Some(p) => p@,
                None => Seq::<char>::empty(),
            }) + seq!['@'] + (match db.address {
                Some(a) => a@,
                None => "localhost"@,
            }) + seq![':'] + decimal(
                (match db.port {
                    Some(p) => p as nat,
                    None => 5432nat,
                }),
            ) + seq!['/'] + db.name->0@,
        ),
{
}

/// The user name that the URL carries depends on the user name alone: two
/// configurations that differ only in their passwords carry the same text
/// between `postgresql://` and the user name's end.
pub proof fn lemma_database_url_user_independent_of_password(a: DatabaseConfig, b: DatabaseConfig)
    requires
        a.database_url is None,
        b.database_url is None,
        a.name is Some,
        a.name == b.name,
        a.username == b.username,
        a.username is Some,
    ensures
        ({
            let u = a.username->0@;
            let ua = spec_database_url(a)->0;
            let ub = spec_database_url(b)->0;
            &&& ua.subrange(0, 13 + u.len() as int) == "postgresql://"@ + u
            &&& ub.subrange(0, 13 + u.len() as int) == "postgresql://"@ + u
            &&& ua[13 + u.len() as int] == ':'
            &&& ub[13 + u.len() as int] == ':'
        }),
{
    reveal_strlit("postgresql://");
    let u = a.username->0@;
    let ua = spec_database_url(a)->0;
    let ub = spec_database_url(b)->0;
    assert(ua.subrange(0, 13 + u.len() as int) =~= "postgresql://"@ + u);
    assert(ub.subrange(0, 13 + u.len() as int) =~= "postgresql://"@ + u);
}

} // verus!
