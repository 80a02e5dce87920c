//! The tables of the archive: what to create, select and insert for each.

use vstd::prelude::*;

verus! {

/// One table of the archive. The three statements are handed to the
/// databases as they stand.
#[derive(Debug, Clone, Copy, PartialEq, Eq)]
pub struct Table {
    /// The table's name in the archive.
    pub name: &'static str,
    /// Creates the table in the archive.
    pub definition: &'static str,
    /// Selects the table's rows from the league database.
    pub select_sql: &'static str,
    /// Inserts one row into the archive, one placeholder for each column.
    pub insert_sql: &'static str,
    /// How many columns a row has.
    pub columns: usize,
}

/// Creates `users`.
pub const USERS_DEFINITION: &'static str = "CREATE TABLE users (
        id           INTEGER PRIMARY KEY,
        name         TEXT NOT NULL,
        date_created INTEGER NOT NULL,

        games_melee_won          INTEGER NOT NULL,
        games_melee_lost         INTEGER NOT NULL,
        games_melee_disconnected INTEGER NOT NULL,
        games_settle_won         INTEGER NOT NULL,
        games_settle_lost        INTEGER NOT NULL,

        clan_id   INTEGER,
        old_names TEXT
    )";

/// Selects the rows of `users`.
pub const USERS_SELECT: &'static str = "SELECT id, name, date_created, games_melee_won, games_melee_lost, games_melee_disconnected, games_settle_won, games_settle_lost, clan_id, old_names FROM lg_users WHERE is_deleted = 0";

/// Inserts one row into `users`.
pub const USERS_INSERT: &'static str = "INSERT INTO users VALUES (?, ?, ?, ?, ?, ?, ?, ?, ?, ?)";

/// Creates `clans`.
pub const CLANS_DEFINITION: &'static str = "CREATE TABLE clans (
        id              INTEGER PRIMARY KEY,
        founder_user_id INTEGER NOT NULL,
        name            TEXT NOT NULL,
        link            TEXT NOT NULL,
        tag             TEXT NOT NULL,
        description     TEXT NOT NULL
    )";

/// Selects the rows of `clans`.
pub const CLANS_SELECT: &'static str = "SELECT id, founder_user_id, name, link, tag, description FROM lg_clans";

/// Inserts one row into `clans`.
pub const CLANS_INSERT: &'static str = "INSERT INTO clans VALUES (?, ?, ?, ?, ?, ?)";

/// Creates `clan_scores`.
pub const CLAN_SCORES_DEFINITION: &'static str = "CREATE TABLE clan_scores (
        clan_id         INTEGER NOT NULL,
        league_id       INTEGER NOT NULL,
        score           INTEGER NOT NULL,
        rank            INTEGER NOT NULL,
        trend           TEXT NOT NULL,
        date_last_game  INTEGER NOT NULL,
        games_count     INTEGER NOT NULL,
        favorite_scenario_id INTEGER NOT NULL,
        duration        INTEGER NOT NULL,
        PRIMARY KEY (clan_id, league_id)
    )";

/// Selects the rows of `clan_scores`.
pub const CLAN_SCORES_SELECT: &'static str = "SELECT clan_id, league_id, score, rank, trend, date_last_game, games_count, favorite_scenario_id, duration FROM lg_clan_scores";

/// Inserts one row into `clan_scores`.
pub const CLAN_SCORES_INSERT: &'static str = "INSERT INTO clan_scores VALUES (?, ?, ?, ?, ?, ?, ?, ?, ?)";

/// Creates `games`.
pub const GAMES_DEFINITION: &'static str = "CREATE TABLE games (
        id              INTEGER PRIMARY KEY,
        date_created    INTEGER NOT NULL,
        date_started    INTEGER NOT NULL,
        date_ended      INTEGER NOT NULL,
        duration        INTEGER NOT NULL,
        type            TEXT NOT NULL,
        status          TEXT NOT NULL,
        scenario_id     INTEGER NOT NULL,
        scenario_title  TEXT NOT NULL
    )";

/// Selects the rows of `games`.
pub const GAMES_SELECT: &'static str = "SELECT id, date_created, date_started, date_ended, duration, type, status, scenario_id, scenario_title FROM lg_games";

/// Inserts one row into `games`.
pub const GAMES_INSERT: &'static str = "INSERT INTO games VALUES (?, ?, ?, ?, ?, ?, ?, ?, ?)";

/// Creates `game_players`.
pub const GAME_PLAYERS_DEFINITION: &'static str = "CREATE TABLE game_players (
        game_id         INTEGER NOT NULL,
        player_id       INTEGER NOT NULL,
        team_id         INTEGER NOT NULL,
        user_id         INTEGER NOT NULL,
        color           INTEGER NOT NULL,
        name            TEXT NOT NULL,
        PRIMARY KEY (game_id, player_id)
    )";

/// Selects the rows of `game_players`.
pub const GAME_PLAYERS_SELECT: &'static str = "SELECT game_id, player_id, team_id, user_id, color, name FROM lg_game_players";

/// Inserts one row into `game_players`.
pub const GAME_PLAYERS_INSERT: &'static str = "INSERT INTO game_players VALUES (?, ?, ?, ?, ?, ?)";

/// Creates `game_scores`.
pub const GAME_SCORES_DEFINITION: &'static str = "CREATE TABLE game_scores (
        league_id        INTEGER NOT NULL,
        game_id          INTEGER NOT NULL,
        player_id        INTEGER NOT NULL,
        score            INTEGER NOT NULL,
        old_player_score INTEGER NOT NULL,
        settle_rank      INTEGER NOT NULL,
        bonus            INTEGER NOT NULL,
        PRIMARY KEY (league_id, game_id, player_id)
    )";

/// Selects the rows of `game_scores`.
pub const GAME_SCORES_SELECT: &'static str = "SELECT league_id, game_id, player_id, score, old_player_score, settle_rank, bonus FROM lg_game_scores";

/// Inserts one row into `game_scores`.
pub const GAME_SCORES_INSERT: &'static str = "INSERT INTO game_scores VALUES (?, ?, ?, ?, ?, ?, ?)";

/// Creates `game_teams`.
pub const GAME_TEAMS_DEFINITION: &'static str = "CREATE TABLE game_teams (
        team_id  INTEGER NOT NULL,
        game_id  INTEGER NOT NULL,
        name     TEXT NOT NULL,
        color    INTEGER NOT NULL,
        status   INTEGER NOT NULL,
        PRIMARY KEY (team_id, game_id)
    )";

/// Selects the rows of `game_teams`.
pub const GAME_TEAMS_SELECT: &'static str = "SELECT team_id, game_id, name, color, team_status FROM lg_game_teams";

/// Inserts one row into `game_teams`.
pub const GAME_TEAMS_INSERT: &'static str = "INSERT INTO game_teams VALUES (?, ?, ?, ?, ?)";

/// Creates `leagues`.
pub const LEAGUES_DEFINITION: &'static str = "CREATE TABLE leagues (
        id          INTEGER PRIMARY KEY,
        name_de     TEXT NOT NULL,
        name_en     TEXT NOT NULL,
        desc_de     TEXT NOT NULL,
        desc_en     TEXT NOT NULL,
        type        TEXT NOT NULL,
        date_start  INTEGER NOT NULL,
        date_end    INTEGER NOT NULL
    )";

/// Selects the rows of `leagues`. Name and description each come in German
/// and in English, so the strings table is joined four times.
pub const LEAGUES_SELECT: &'static str = "SELECT
                     l.id, nde.string, nen.string, dde.string, den.string, type, date_start, date_end
                 FROM lg_leagues l, lg_strings nde, lg_strings nen, lg_strings dde, lg_strings den
                 WHERE
                    l.name_sid = nde.id AND nde.language_id = 2 AND
                    l.name_sid = nen.id AND nen.language_id = 1 AND
                    l.description_sid = dde.id AND dde.language_id = 2 AND
                    l.description_sid = den.id AND den.language_id = 1";

/// Inserts one row into `leagues`.
pub const LEAGUES_INSERT: &'static str = "INSERT INTO leagues VALUES (?, ?, ?, ?, ?, ?, ?, ?)";

/// Creates `scores`.
pub const SCORES_DEFINITION: &'static str = "CREATE TABLE scores (
        user_id               INTEGER NOT NULL,
        league_id             INTEGER NOT NULL,
        score                 INTEGER NOT NULL,
        rank                  INTEGER NOT NULL,
        trend                 TEXT NOT NULL,
        date_last_game        INTEGER NOT NULL,
        games_won             INTEGER NOT NULL,
        games_lost            INTEGER NOT NULL,
        favorite_scenario_id  INTEGER NOT NULL,
        duration              INTEGER NOT NULL,
        bonus_account         INTEGER NOT NULL,
        PRIMARY KEY (user_id, league_id)
    )";

/// Selects the rows of `scores`.
pub const SCORES_SELECT: &'static str = "SELECT user_id, league_id, score, rank, trend, date_last_game, games_won, games_lost, favorite_scenario_id, duration, bonus_account FROM lg_scores WHERE user_is_deleted = 0";

/// Inserts one row into `scores`.
pub const SCORES_INSERT: &'static str = "INSERT INTO scores VALUES (?, ?, ?, ?, ?, ?, ?, ?, ?, ?, ?)";

/// The tables of the archive, in the order in which they are copied.
pub open spec fn all_tables() -> Seq<Table> {
    seq![
        Table {
            name: "users",
            definition: USERS_DEFINITION,
            select_sql: USERS_SELECT,
            insert_sql: USERS_INSERT,
            columns: 10,
        },
        Table {
            name: "clans",
            definition: CLANS_DEFINITION,
            select_sql: CLANS_SELECT,
            insert_sql: CLANS_INSERT,
            columns: 6,
        },
        Table {
            name: "clan_scores",
            definition: CLAN_SCORES_DEFINITION,
            select_sql: CLAN_SCORES_SELECT,
            insert_sql: CLAN_SCORES_INSERT,
            columns: 9,
        },
        Table {
            name: "games",
            definition: GAMES_DEFINITION,
            select_sql: GAMES_SELECT,
            insert_sql: GAMES_INSERT,
            columns: 9,
        },
        Table {
            name: "game_players",
            definition: GAME_PLAYERS_DEFINITION,
            select_sql: GAME_PLAYERS_SELECT,
            insert_sql: GAME_PLAYERS_INSERT,
            columns: 6,
        },
        Table {
            name: "game_scores",
            definition: GAME_SCORES_DEFINITION,
            select_sql: GAME_SCORES_SELECT,
            insert_sql: GAME_SCORES_INSERT,
            columns: 7,
        },
        Table {
            name: "game_teams",
            definition: GAME_TEAMS_DEFINITION,
            select_sql: GAME_TEAMS_SELECT,
            insert_sql: GAME_TEAMS_INSERT,
            columns: 5,
        },
        Table {
            name: "leagues",
            definition: LEAGUES_DEFINITION,
            select_sql: LEAGUES_SELECT,
            insert_sql: LEAGUES_INSERT,
            columns: 8,
        },
        Table {
            name: "scores",
            definition: SCORES_DEFINITION,
            select_sql: SCORES_SELECT,
            insert_sql: SCORES_INSERT,
            columns: 11,
        },
    ]
}

/// The tables of the archive, in the order in which they are copied.
pub fn all() -> (tables: Vec<Table>)
    ensures
        tables@ == all_tables(),
{
    vec![
        Table {
            name: "users",
            definition: USERS_DEFINITION,
            select_sql: USERS_SELECT,
            insert_sql: USERS_INSERT,
            columns: 10,
        },
        Table {
            name: "clans",
            definition: CLANS_DEFINITION,
            select_sql: CLANS_SELECT,
            insert_sql: CLANS_INSERT,
            columns: 6,
        },
        Table {
            name: "clan_scores",
            definition: CLAN_SCORES_DEFINITION,
            select_sql: CLAN_SCORES_SELECT,
            insert_sql: CLAN_SCORES_INSERT,
            columns: 9,
        },
        Table {
            name: "games",
            definition: GAMES_DEFINITION,
            select_sql: GAMES_SELECT,
            insert_sql: GAMES_INSERT,
            columns: 9,
        },
        Table {
            name: "game_players",
            definition: GAME_PLAYERS_DEFINITION,
            select_sql: GAME_PLAYERS_SELECT,
            insert_sql: GAME_PLAYERS_INSERT,
            columns: 6,
        },
        Table {
            name: "game_scores",
            definition: GAME_SCORES_DEFINITION,
            select_sql: GAME_SCORES_SELECT,
            insert_sql: GAME_SCORES_INSERT,
            columns: 7,
        },
        Table {
            name: "game_teams",
            definition: GAME_TEAMS_DEFINITION,
            select_sql: GAME_TEAMS_SELECT,
            insert_sql: GAME_TEAMS_INSERT,
            columns: 5,
        },
        Table {
            name: "leagues",
            definition: LEAGUES_DEFINITION,
            select_sql: LEAGUES_SELECT,
            insert_sql: LEAGUES_INSERT,
            columns: 8,
        },
        Table {
            name: "scores",
            definition: SCORES_DEFINITION,
            select_sql: SCORES_SELECT,
            insert_sql: SCORES_INSERT,
            columns: 11,
        },
    ]
}

} // verus!
