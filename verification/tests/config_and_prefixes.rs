use guild_bot::managers::{DefaultPrefix, GuildPrefix};
use guild_bot::models::bot_config::{BotConfig, Config, ConfigError, DatabaseConfig, OwnerConfig};
use guild_bot::models::guild_config::{guild_db_id, GuildConfig, GuildConfigLookup};
use guild_bot::utils::{dynamic_prefix, get_default_prefix, save_prefix, PrefixSource};

fn empty_database() -> DatabaseConfig {
    DatabaseConfig { database_url: None, name: None, port: None, username: None, password: None, address: None }
}

fn config_with(bot: BotConfig, owner: Option<Vec<OwnerConfig>>) -> Config {
    Config { bot, owner, database: empty_database() }
}

fn full_bot() -> BotConfig {
    BotConfig {
        default_prefix: Some("!".to_string()),
        id: Some(99),
        invite_url: Some("https://discord.com/invite".to_string()),
        token: Some("SECRET-REDACTED".to_string()),
    }
}

#[test]
fn required_settings_present() {
    let c = config_with(full_bot(), None);
    assert_eq!(c.bot_token().unwrap(), "SECRET-REDACTED");
    assert_eq!(c.bot_default_prefix().unwrap(), "!");
    assert_eq!(c.bot_id().unwrap(), 99);
    assert_eq!(c.invite_url().unwrap(), "https://discord.com/invite");
}

#[test]
fn required_settings_missing() {
    let c = config_with(BotConfig { default_prefix: None, id: None, invite_url: None, token: None }, None);
    assert!(c.bot_token().unwrap_err() == ConfigError::MissingToken);
    assert!(c.bot_default_prefix().unwrap_err() == ConfigError::MissingDefaultPrefix);
    assert!(c.bot_id().unwrap_err() == ConfigError::MissingBotId);
    assert!(c.invite_url().unwrap_err() == ConfigError::MissingInviteUrl);
}

#[test]
fn error_messages() {
    assert_eq!(ConfigError::MissingToken.message(), "Bot token is not declared in the config file.");
    assert_eq!(ConfigError::MissingDefaultPrefix.message(), "Bot prefix is not declared in the config file.");
    assert_eq!(ConfigError::MissingBotId.message(), "Bot id is not declared in the config file.");
    assert_eq!(ConfigError::MissingInviteUrl.message(), "Bot invite url is not declared in the config file.");
    assert_eq!(ConfigError::MissingDatabaseSettings.message(), "Database settings not set.");
}

#[test]
fn owners_collected() {
    let owners = vec![
        OwnerConfig { id: 1, name: Some("a".to_string()) },
        OwnerConfig { id: 2, name: None },
        OwnerConfig { id: 1, name: None },
    ];
    let set = config_with(full_bot(), Some(owners)).get_owners();
    assert_eq!(set.len(), 2);
    assert!(set.contains(&1) && set.contains(&2));
    assert!(config_with(full_bot(), None).get_owners().is_empty());
    assert!(config_with(full_bot(), Some(vec![])).get_owners().is_empty());
}

#[test]
fn database_url_given_wins() {
    let mut db = empty_database();
    db.database_url = Some("postgres://given".to_string());
    db.name = Some("ignored".to_string());
    assert_eq!(db.get_database_url().unwrap(), "postgres://given");
}

#[test]
fn database_url_defaults() {
    let mut db = empty_database();
    db.name = Some("bot".to_string());
    assert_eq!(db.get_database_url().unwrap(), "postgresql://:@localhost:5432/bot");
}

#[test]
fn database_url_built() {
    let db = DatabaseConfig {
        database_url: None,
        name: Some("guilds".to_string()),
        port: Some(6543),
        username: Some("user".to_string()),
        password: Some("pw".to_string()),
        address: Some("db.local".to_string()),
    };
    assert_eq!(db.get_database_url().unwrap(), "postgresql://user:pw@db.local:6543/guilds");
}

#[test]
fn database_url_missing() {
    let mut db = empty_database();
    db.username = Some("user".to_string());
    assert!(db.get_database_url().unwrap_err() == ConfigError::MissingDatabaseSettings);
}

#[test]
fn guild_lookup_found_and_missing() {
    let row = GuildConfig { guild_id: 5, prefix: "$".to_string() };
    match GuildConfig::get(5, "!", Some(row)) {
        GuildConfigLookup::Found(r) => {
            assert_eq!(r.guild_id, 5);
            assert_eq!(r.prefix, "$");
        }
        GuildConfigLookup::Missing(_) => panic!("row was stored"),
    }
    match GuildConfig::get(6, "!", None) {
        GuildConfigLookup::Missing(r) => {
            assert_eq!(r.guild_id, 6);
            assert_eq!(r.prefix, "!");
        }
        GuildConfigLookup::Found(_) => panic!("no row was stored"),
    }
}

#[test]
fn set_prefix_keeps_guild() {
    let mut row = GuildConfig { guild_id: -3, prefix: "!".to_string() };
    row.set_prefix(">>");
    assert_eq!(row.guild_id, -3);
    assert_eq!(row.prefix, ">>");
}

#[test]
fn guild_ids_as_stored() {
    for id in [0u64, 1, i64::MAX as u64, i64::MAX as u64 + 1, u64::MAX, 81384788765712384] {
        assert_eq!(guild_db_id(id), id as i64);
    }
}

#[test]
fn saved_prefix_is_served() {
    let mut cache = GuildPrefix::new();
    assert!(matches!(dynamic_prefix(&cache, 10), PrefixSource::Database));
    let mut row = GuildConfig { guild_id: 10, prefix: "!".to_string() };
    save_prefix(&mut cache, &mut row, 10, "?".to_string());
    assert_eq!(row.prefix, "?");
    match dynamic_prefix(&cache, 10) {
        PrefixSource::Cached(p) => assert_eq!(p, "?"),
        PrefixSource::Database => panic!("prefix was saved"),
    }
    assert!(matches!(dynamic_prefix(&cache, 11), PrefixSource::Database));
    save_prefix(&mut cache, &mut row, 10, "%".to_string());
    match dynamic_prefix(&cache, 10) {
        PrefixSource::Cached(p) => assert_eq!(p, "%"),
        PrefixSource::Database => panic!("prefix was saved"),
    }
    assert_eq!(cache.get(10), Some("%".to_string()));
    assert_eq!(cache.get(11), None);
}

#[test]
fn default_prefix_copied() {
    let d = DefaultPrefix { prefix: "~".to_string() };
    assert_eq!(get_default_prefix(&d), "~");
}

#[test]
fn save_prefix_for_large_guild_id() {
    let mut cache = GuildPrefix::new();
    let gid = u64::MAX;
    let mut row = GuildConfig { guild_id: guild_db_id(gid), prefix: "!".to_string() };
    save_prefix(&mut cache, &mut row, gid, "#".to_string());
    assert_eq!(row.guild_id, -1);
    assert_eq!(row.prefix, "#");
    assert_eq!(cache.get(gid), Some("#".to_string()));
}
