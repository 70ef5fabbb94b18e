//! Reading a configuration file gives back what it was written from.

use crate::config_toml::{config_lines, config_toml};
use crate::text::{decimal, is_digit, lemma_decimal_digits};
use crate::toml_text::{
    blanks, is_bare, is_plain, is_plain_char, joined, lemma_joined_push, lemma_lines_of_joined,
    lemma_number_value, lemma_read_nothing, lemma_read_setting, lemma_read_table,
    lemma_setting_line, lemma_text_value, line_of, quoted, read_lines, read_toml, Document,
    TomlLine, TomlValue,
};
use vstd::prelude::*;

verus! {

/// The `server` table of the configuration file.
pub open spec fn server_table(quic_port: u16, api_port: u16, mysql_port: u16) -> Map<
    Seq<char>,
    TomlValue,
> {
    map![
        "quic_port"@ => TomlValue::Number(quic_port as nat),
        "api_port"@ => TomlValue::Number(api_port as nat),
        "wire_port"@ => TomlValue::Number(mysql_port as nat),
        "max_connections"@ => TomlValue::Number(10000),
        "ram_limit_mb"@ => TomlValue::Number(256),
    ]
}

/// The `cache` table of the configuration file.
pub open spec fn cache_table() -> Map<Seq<char>, TomlValue> {
    map![
        "hot_cache_size_mb"@ => TomlValue::Number(64),
        "eviction_policy"@ => TomlValue::Text("lru"@),
    ]
}

/// The `storage` table of the configuration file.
pub open spec fn storage_table(data_dir: Seq<char>, wal_dir: Seq<char>) -> Map<
    Seq<char>,
    TomlValue,
> {
    map![
        "data_dir"@ => TomlValue::Text(data_dir),
        "wal_dir"@ => TomlValue::Text(wal_dir),
        "memtable_size_mb"@ => TomlValue::Number(32),
    ]
}

/// The `postgresql` table of the configuration file.
pub open spec fn postgresql_table(pg_port: u16) -> Map<Seq<char>, TomlValue> {
    map![
        "enabled"@ => TomlValue::Flag(true),
        "port"@ => TomlValue::Number(pg_port as nat),
        "max_connections"@ => TomlValue::Number(200),
        "enable_ssl"@ => TomlValue::Flag(false),
    ]
}

/// The `auth` table of the configuration file.
pub open spec fn auth_table(password: Seq<char>) -> Map<Seq<char>, TomlValue> {
    map!["password"@ => TomlValue::Text(password)]
}

/// What the configuration file says.
pub open spec fn config_document(
    pg_port: u16,
    mysql_port: u16,
    api_port: u16,
    quic_port: u16,
    data_dir: Seq<char>,
    wal_dir: Seq<char>,
    password: Seq<char>,
) -> Document {
    map![
        "server"@ => server_table(quic_port, api_port, mysql_port),
        "cache"@ => cache_table(),
        "storage"@ => storage_table(data_dir, wal_dir),
        "postgresql"@ => postgresql_table(pg_port),
        "auth"@ => auth_table(password),
    ]
}

proof fn lemma_table_line(line: Seq<char>, name: Seq<char>)
    requires
        line == seq!['['] + name + seq![']'],
        is_bare(name),
    ensures
        line_of(line) == TomlLine::Table(name),
{
    assert(line.subrange(1, line.len() - 1) =~= name);
}

proof fn lemma_number_line(line: Seq<char>, key: Seq<char>, n: nat, number: nat)
    requires
        line == key + blanks(n) + seq!['=', ' '] + decimal(number),
        is_bare(key),
    ensures
        line_of(line) == TomlLine::Setting(key, TomlValue::Number(number)),
{
    lemma_number_value(number);
    lemma_setting_line(line, key, n, decimal(number), TomlValue::Number(number));
}

proof fn lemma_quoted_line(line: Seq<char>, key: Seq<char>, n: nat, s: Seq<char>)
    requires
        line == key + blanks(n) + seq!['=', ' '] + quoted(s),
        is_bare(key),
        is_plain(s),
    ensures
        line_of(line) == TomlLine::Setting(key, TomlValue::Text(s)),
{
    lemma_text_value(s);
    lemma_setting_line(line, key, n, quoted(s), TomlValue::Text(s));
}

proof fn lemma_server_lines(quic_port: u16, api_port: u16, mysql_port: u16)
    ensures
        line_of("[server]"@) == TomlLine::Table("server"@),
        line_of("quic_port      = "@ + decimal(quic_port as nat)) == TomlLine::Setting(
            "quic_port"@,
            TomlValue::Number(quic_port as nat),
        ),
        line_of("api_port       = "@ + decimal(api_port as nat)) == TomlLine::Setting(
            "api_port"@,
            TomlValue::Number(api_port as nat),
        ),
        line_of("wire_port      = "@ + decimal(mysql_port as nat)) == TomlLine::Setting(
            "wire_port"@,
            TomlValue::Number(mysql_port as nat),
        ),
        line_of("max_connections = 10000"@) == TomlLine::Setting(
            "max_connections"@,
            TomlValue::Number(10000),
        ),
        line_of("ram_limit_mb   = 256"@) == TomlLine::Setting(
            "ram_limit_mb"@,
            TomlValue::Number(256),
        ),
{
    reveal_with_fuel(decimal, 5);
    reveal_strlit("[server]");
    reveal_strlit("server");
    assert("[server]"@ =~= seq!['['] + "server"@ + seq![']']);
    lemma_table_line("[server]"@, "server"@);
    reveal_strlit("quic_port      = ");
    reveal_strlit("quic_port");
    assert("quic_port      = "@ =~= "quic_port"@ + blanks(6) + seq!['=', ' ']);
    lemma_number_line(
        "quic_port      = "@ + decimal(quic_port as nat),
        "quic_port"@,
        6,
        quic_port as nat,
    );
    reveal_strlit("api_port       = ");
    reveal_strlit("api_port");
    assert("api_port       = "@ =~= "api_port"@ + blanks(7) + seq!['=', ' ']);
    lemma_number_line(
        "api_port       = "@ + decimal(api_port as nat),
        "api_port"@,
        7,
        api_port as nat,
    );
    reveal_strlit("wire_port      = ");
    reveal_strlit("wire_port");
    assert("wire_port      = "@ =~= "wire_port"@ + blanks(6) + seq!['=', ' ']);
    lemma_number_line(
        "wire_port      = "@ + decimal(mysql_port as nat),
        "wire_port"@,
        6,
        mysql_port as nat,
    );
    reveal_strlit("max_connections = 10000");
    reveal_strlit("max_connections");
    assert("max_connections = 10000"@ =~= "max_connections"@ + blanks(1) + seq!['=', ' ']
        + decimal(10000));
    lemma_number_line("max_connections = 10000"@, "max_connections"@, 1, 10000);
    reveal_strlit("ram_limit_mb   = 256");
    reveal_strlit("ram_limit_mb");
    assert("ram_limit_mb   = 256"@ =~= "ram_limit_mb"@ + blanks(3) + seq!['=', ' '] + decimal(256));
    lemma_number_line("ram_limit_mb   = 256"@, "ram_limit_mb"@, 3, 256);
}

proof fn lemma_cache_lines()
    ensures
        line_of("[cache]"@) == TomlLine::Table("cache"@),
        line_of("hot_cache_size_mb = 64"@) == TomlLine::Setting(
            "hot_cache_size_mb"@,
            TomlValue::Number(64),
        ),
        line_of("eviction_policy   = \"lru\""@) == TomlLine::Setting(
            "eviction_policy"@,
            TomlValue::Text("lru"@),
        ),
{
    reveal_with_fuel(decimal, 2);
    reveal_strlit("[cache]");
    reveal_strlit("cache");
    assert("[cache]"@ =~= seq!['['] + "cache"@ + seq![']']);
    lemma_table_line("[cache]"@, "cache"@);
    reveal_strlit("hot_cache_size_mb = 64");
    reveal_strlit("hot_cache_size_mb");
    assert("hot_cache_size_mb = 64"@ =~= "hot_cache_size_mb"@ + blanks(1) + seq!['=', ' ']
        + decimal(64));
    lemma_number_line("hot_cache_size_mb = 64"@, "hot_cache_size_mb"@, 1, 64);
    reveal_strlit("eviction_policy   = \"lru\"");
    reveal_strlit("eviction_policy");
    reveal_strlit("lru");
    assert("eviction_policy   = \"lru\""@ =~= "eviction_policy"@ + blanks(3) + seq!['=', ' ']
        + quoted("lru"@));
    lemma_quoted_line("eviction_policy   = \"lru\""@, "eviction_policy"@, 3, "lru"@);
}

proof fn lemma_storage_lines(data_dir: Seq<char>, wal_dir: Seq<char>)
    requires
        is_plain(data_dir),
        is_plain(wal_dir),
    ensures
        line_of("[storage]"@) == TomlLine::Table("storage"@),
        line_of("data_dir          = "@ + quoted(data_dir)) == TomlLine::Setting(
            "data_dir"@,
            TomlValue::Text(data_dir),
        ),
        line_of("wal_dir           = "@ + quoted(wal_dir)) == TomlLine::Setting(
            "wal_dir"@,
            TomlValue::Text(wal_dir),
        ),
        line_of("memtable_size_mb  = 32"@) == TomlLine::Setting(
            "memtable_size_mb"@,
            TomlValue::Number(32),
        ),
{
    reveal_with_fuel(decimal, 2);
    reveal_strlit("[storage]");
    reveal_strlit("storage");
    assert("[storage]"@ =~= seq!['['] + "storage"@ + seq![']']);
    lemma_table_line("[storage]"@, "storage"@);
    reveal_strlit("data_dir          = ");
    reveal_strlit("data_dir");
    assert("data_dir          = "@ =~= "data_dir"@ + blanks(10) + seq!['=', ' ']);
    lemma_quoted_line("data_dir          = "@ + quoted(data_dir), "data_dir"@, 10, data_dir);
    reveal_strlit("wal_dir           = ");
    reveal_strlit("wal_dir");
    assert("wal_dir           = "@ =~= "wal_dir"@ + blanks(11) + seq!['=', ' ']);
    lemma_quoted_line("wal_dir           = "@ + quoted(wal_dir), "wal_dir"@, 11, wal_dir);
    reveal_strlit("memtable_size_mb  = 32");
    reveal_strlit("memtable_size_mb");
    assert("memtable_size_mb  = 32"@ =~= "memtable_size_mb"@ + blanks(2) + seq!['=', ' ']
        + decimal(32));
    lemma_number_line("memtable_size_mb  = 32"@, "memtable_size_mb"@, 2, 32);
}

proof fn lemma_postgresql_lines(pg_port: u16)
    ensures
        line_of("[postgresql]"@) == TomlLine::Table("postgresql"@),
        line_of("enabled         = true"@) == TomlLine::Setting(
            "enabled"@,
            TomlValue::Flag(true),
        ),
        line_of("port            = "@ + decimal(pg_port as nat)) == TomlLine::Setting(
            "port"@,
            TomlValue::Number(pg_port as nat),
        ),
        line_of("max_connections = 200"@) == TomlLine::Setting(
            "max_connections"@,
            TomlValue::Number(200),
        ),
        line_of("enable_ssl      = false"@) == TomlLine::Setting(
            "enable_ssl"@,
            TomlValue::Flag(false),
        ),
{
    reveal_with_fuel(decimal, 3);
    reveal_strlit("true");
    reveal_strlit("false");
    assert("true"@.len() != "false"@.len());
    reveal_strlit("[postgresql]");
    reveal_strlit("postgresql");
    assert("[postgresql]"@ =~= seq!['['] + "postgresql"@ + seq![']']);
    lemma_table_line("[postgresql]"@, "postgresql"@);
    reveal_strlit("enabled         = true");
    reveal_strlit("enabled");
    assert("enabled         = true"@ =~= "enabled"@ + blanks(9) + seq!['=', ' '] + "true"@);
    lemma_setting_line(
        "enabled         = true"@,
        "enabled"@,
        9,
        "true"@,
        TomlValue::Flag(true),
    );
    reveal_strlit("port            = ");
    reveal_strlit("port");
    assert("port            = "@ =~= "port"@ + blanks(12) + seq!['=', ' ']);
    lemma_number_line(
        "port            = "@ + decimal(pg_port as nat),
        "port"@,
        12,
        pg_port as nat,
    );
    reveal_strlit("max_connections = 200");
    reveal_strlit("max_connections");
    assert("max_connections = 200"@ =~= "max_connections"@ + blanks(1) + seq!['=', ' '] + decimal(
        200,
    ));
    lemma_number_line("max_connections = 200"@, "max_connections"@, 1, 200);
    reveal_strlit("enable_ssl      = false");
    reveal_strlit("enable_ssl");
    assert("enable_ssl      = false"@ =~= "enable_ssl"@ + blanks(6) + seq!['=', ' '] + "false"@);
    lemma_setting_line(
        "enable_ssl      = false"@,
        "enable_ssl"@,
        6,
        "false"@,
        TomlValue::Flag(false),
    );
}

proof fn lemma_auth_lines(password: Seq<char>)
    requires
        is_plain(password),
    ensures
        line_of("[auth]"@) == TomlLine::Table("auth"@),
        line_of("password = "@ + quoted(password)) == TomlLine::Setting(
            "password"@,
            TomlValue::Text(password),
        ),
{
    reveal_strlit("[auth]");
    reveal_strlit("auth");
    assert("[auth]"@ =~= seq!['['] + "auth"@ + seq![']']);
    lemma_table_line("[auth]"@, "auth"@);
    reveal_strlit("password = ");
    reveal_strlit("password");
    assert("password = "@ =~= "password"@ + blanks(1) + seq!['=', ' ']);
    lemma_quoted_line("password = "@ + quoted(password), "password"@, 1, password);
}

proof fn lemma_other_lines()
    ensures
        line_of("# Auto-generated by mtpdb_manager — do not edit manually."@) == TomlLine::Nothing,
        line_of(""@) == TomlLine::Nothing,
        line_of("# The password below is returned to the caller at provisioning time."@)
            == TomlLine::Nothing,
        line_of("# Wire it into the instance's auth configuration as needed."@)
            == TomlLine::Nothing,
{
    reveal_strlit("# Auto-generated by mtpdb_manager — do not edit manually.");
    reveal_strlit("");
    reveal_strlit("# The password below is returned to the caller at provisioning time.");
    reveal_strlit("# Wire it into the instance's auth configuration as needed.");
}

proof fn lemma_no_line_feed_in_number(head: Seq<char>, n: nat)
    requires
        !head.contains('\n'),
    ensures
        !(head + decimal(n)).contains('\n'),
{
    lemma_decimal_digits(n);
    assert forall|i: int| 0 <= i < (head + decimal(n)).len() implies (head + decimal(n))[i]
        != '\n' by {
        if i >= head.len() {
            assert(is_digit(decimal(n)[i - head.len()]));
        }
    }
}

proof fn lemma_no_line_feed_in_quoted(head: Seq<char>, s: Seq<char>)
    requires
        !head.contains('\n'),
        is_plain(s),
    ensures
        !(head + quoted(s)).contains('\n'),
{
    assert forall|i: int| 0 <= i < (head + quoted(s)).len() implies (head + quoted(s))[i]
        != '\n' by {
        if head.len() < i < (head + quoted(s)).len() - 1 {
            assert(is_plain_char(s[i - head.len() - 1]));
        }
    }
}

proof fn lemma_no_line_feeds(
    pg_port: u16,
    mysql_port: u16,
    api_port: u16,
    quic_port: u16,
    data_dir: Seq<char>,
    wal_dir: Seq<char>,
    password: Seq<char>,
)
    requires
        is_plain(data_dir),
        is_plain(wal_dir),
        is_plain(password),
    ensures
        ({
            let lines = config_lines(
                pg_port,
                mysql_port,
                api_port,
                quic_port,
                data_dir,
                wal_dir,
                password,
            );
            forall|i: int| 0 <= i < lines.len() ==> !(#[trigger] lines[i]).contains('\n')
        }),
{
    assert(!"# Auto-generated by mtpdb_manager — do not edit manually."@.contains('\n')) by {
        reveal_strlit("# Auto-generated by mtpdb_manager — do not edit manually.");
    }
    assert(!""@.contains('\n')) by {
        reveal_strlit("");
    }
    assert(!"[server]"@.contains('\n')) by {
        reveal_strlit("[server]");
    }
    assert(!"quic_port      = "@.contains('\n')) by {
        reveal_strlit("quic_port      = ");
    }
    assert(!"api_port       = "@.contains('\n')) by {
        reveal_strlit("api_port       = ");
    }
    assert(!"wire_port      = "@.contains('\n')) by {
        reveal_strlit("wire_port      = ");
    }
    assert(!"max_connections = 10000"@.contains('\n')) by {
        reveal_strlit("max_connections = 10000");
    }
    assert(!"ram_limit_mb   = 256"@.contains('\n')) by {
        reveal_strlit("ram_limit_mb   = 256");
    }
    assert(!"[cache]"@.contains('\n')) by {
        reveal_strlit("[cache]");
    }
    assert(!"hot_cache_size_mb = 64"@.contains('\n')) by {
        reveal_strlit("hot_cache_size_mb = 64");
    }
    assert(!"eviction_policy   = \"lru\""@.contains('\n')) by {
        reveal_strlit("eviction_policy   = \"lru\"");
    }
    assert(!"[storage]"@.contains('\n')) by {
        reveal_strlit("[storage]");
    }
    assert(!"data_dir          = "@.contains('\n')) by {
        reveal_strlit("data_dir          = ");
    }
    assert(!"wal_dir           = "@.contains('\n')) by {
        reveal_strlit("wal_dir           = ");
    }
    assert(!"memtable_size_mb  = 32"@.contains('\n')) by {
        reveal_strlit("memtable_size_mb  = 32");
    }
    assert(!"[postgresql]"@.contains('\n')) by {
        reveal_strlit("[postgresql]");
    }
    assert(!"enabled         = true"@.contains('\n')) by {
        reveal_strlit("enabled         = true");
    }
    assert(!"port            = "@.contains('\n')) by {
        reveal_strlit("port            = ");
    }
    assert(!"max_connections = 200"@.contains('\n')) by {
        reveal_strlit("max_connections = 200");
    }
    assert(!"enable_ssl      = false"@.contains('\n')) by {
        reveal_strlit("enable_ssl      = false");
    }
    assert(!"# The password below is returned to the caller at provisioning time."@.contains('\n')) by {
        reveal_strlit("# The password below is returned to the caller at provisioning time.");
    }
    assert(!"# Wire it into the instance's auth configuration as needed."@.contains('\n')) by {
        reveal_strlit("# Wire it into the instance's auth configuration as needed.");
    }
    assert(!"[auth]"@.contains('\n')) by {
        reveal_strlit("[auth]");
    }
    assert(!"password = "@.contains('\n')) by {
        reveal_strlit("password = ");
    }
    lemma_no_line_feed_in_number("quic_port      = "@, quic_port as nat);
    lemma_no_line_feed_in_number("api_port       = "@, api_port as nat);
    lemma_no_line_feed_in_number("wire_port      = "@, mysql_port as nat);
    lemma_no_line_feed_in_number("port            = "@, pg_port as nat);
    lemma_no_line_feed_in_quoted("data_dir          = "@, data_dir);
    lemma_no_line_feed_in_quoted("wal_dir           = "@, wal_dir);
    lemma_no_line_feed_in_quoted("password = "@, password);
}

proof fn lemma_read_server(
    lines: Seq<Seq<char>>,
    table: Seq<char>,
    so_far: Document,
    quic_port: u16,
    api_port: u16,
    mysql_port: u16,
)
    requires
        lines.len() >= 8,
        !so_far.contains_key("server"@),
        line_of(lines[2]) == TomlLine::Table("server"@),
        line_of(lines[3]) == TomlLine::Setting("quic_port"@, TomlValue::Number(quic_port as nat)),
        line_of(lines[4]) == TomlLine::Setting("api_port"@, TomlValue::Number(api_port as nat)),
        line_of(lines[5]) == TomlLine::Setting("wire_port"@, TomlValue::Number(mysql_port as nat)),
        line_of(lines[6]) == TomlLine::Setting("max_connections"@, TomlValue::Number(10000)),
        line_of(lines[7]) == TomlLine::Setting("ram_limit_mb"@, TomlValue::Number(256)),
    ensures
        read_lines(lines.skip(2), table, so_far) == read_lines(
            lines.skip(8),
            "server"@,
            so_far.insert("server"@, server_table(quic_port, api_port, mysql_port)),
        ),
{
    reveal_strlit("quic_port");
    reveal_strlit("api_port");
    reveal_strlit("wire_port");
    reveal_strlit("max_connections");
    reveal_strlit("ram_limit_mb");
    assert("quic_port"@[0] != "wire_port"@[0]);
    let t0 = Map::<Seq<char>, TomlValue>::empty();
    lemma_read_table(lines, 2, table, so_far, "server"@);
    lemma_read_setting(
        lines,
        3,
        "server"@,
        so_far,
        t0,
        "quic_port"@,
        TomlValue::Number(quic_port as nat),
    );
    let t1 = t0.insert("quic_port"@, TomlValue::Number(quic_port as nat));
    lemma_read_setting(
        lines,
        4,
        "server"@,
        so_far,
        t1,
        "api_port"@,
        TomlValue::Number(api_port as nat),
    );
    let t2 = t1.insert("api_port"@, TomlValue::Number(api_port as nat));
    lemma_read_setting(
        lines,
        5,
        "server"@,
        so_far,
        t2,
        "wire_port"@,
        TomlValue::Number(mysql_port as nat),
    );
    let t3 = t2.insert("wire_port"@, TomlValue::Number(mysql_port as nat));
    lemma_read_setting(
        lines,
        6,
        "server"@,
        so_far,
        t3,
        "max_connections"@,
        TomlValue::Number(10000),
    );
    let t4 = t3.insert("max_connections"@, TomlValue::Number(10000));
    lemma_read_setting(lines, 7, "server"@, so_far, t4, "ram_limit_mb"@, TomlValue::Number(256));
}

proof fn lemma_read_cache(
    lines: Seq<Seq<char>>,
    table: Seq<char>,
    so_far: Document,
)
    requires
        lines.len() >= 12,
        !so_far.contains_key("cache"@),
        line_of(lines[9]) == TomlLine::Table("cache"@),
        line_of(lines[10]) == TomlLine::Setting("hot_cache_size_mb"@, TomlValue::Number(64)),
        line_of(lines[11]) == TomlLine::Setting("eviction_policy"@, TomlValue::Text("lru"@)),
    ensures
        read_lines(lines.skip(9), table, so_far) == read_lines(
            lines.skip(12),
            "cache"@,
            so_far.insert("cache"@, cache_table()),
        ),
{
    reveal_strlit("hot_cache_size_mb");
    reveal_strlit("eviction_policy");
    let t0 = Map::<Seq<char>, TomlValue>::empty();
    lemma_read_table(lines, 9, table, so_far, "cache"@);
    lemma_read_setting(
        lines,
        10,
        "cache"@,
        so_far,
        t0,
        "hot_cache_size_mb"@,
        TomlValue::Number(64),
    );
    let t1 = t0.insert("hot_cache_size_mb"@, TomlValue::Number(64));
    lemma_read_setting(
        lines,
        11,
        "cache"@,
        so_far,
        t1,
        "eviction_policy"@,
        TomlValue::Text("lru"@),
    );
}

proof fn lemma_read_storage(
    lines: Seq<Seq<char>>,
    table: Seq<char>,
    so_far: Document,
    data_dir: Seq<char>,
    wal_dir: Seq<char>,
)
    requires
        lines.len() >= 17,
        !so_far.contains_key("storage"@),
        line_of(lines[13]) == TomlLine::Table("storage"@),
        line_of(lines[14]) == TomlLine::Setting("data_dir"@, TomlValue::Text(data_dir)),
        line_of(lines[15]) == TomlLine::Setting("wal_dir"@, TomlValue::Text(wal_dir)),
        line_of(lines[16]) == TomlLine::Setting("memtable_size_mb"@, TomlValue::Number(32)),
    ensures
        read_lines(lines.skip(13), table, so_far) == read_lines(
            lines.skip(17),
            "storage"@,
            so_far.insert("storage"@, storage_table(data_dir, wal_dir)),
        ),
{
    reveal_strlit("data_dir");
    reveal_strlit("wal_dir");
    reveal_strlit("memtable_size_mb");
    let t0 = Map::<Seq<char>, TomlValue>::empty();
    lemma_read_table(lines, 13, table, so_far, "storage"@);
    lemma_read_setting(lines, 14, "storage"@, so_far, t0, "data_dir"@, TomlValue::Text(data_dir));
    let t1 = t0.insert("data_dir"@, TomlValue::Text(data_dir));
    lemma_read_setting(lines, 15, "storage"@, so_far, t1, "wal_dir"@, TomlValue::Text(wal_dir));
    let t2 = t1.insert("wal_dir"@, TomlValue::Text(wal_dir));
    lemma_read_setting(
        lines,
        16,
        "storage"@,
        so_far,
        t2,
        "memtable_size_mb"@,
        TomlValue::Number(32),
    );
}

proof fn lemma_read_postgresql(
    lines: Seq<Seq<char>>,
    table: Seq<char>,
    so_far: Document,
    pg_port: u16,
)
    requires
        lines.len() >= 23,
        !so_far.contains_key("postgresql"@),
        line_of(lines[18]) == TomlLine::Table("postgresql"@),
        line_of(lines[19]) == TomlLine::Setting("enabled"@, TomlValue::Flag(true)),
        line_of(lines[20]) == TomlLine::Setting("port"@, TomlValue::Number(pg_port as nat)),
        line_of(lines[21]) == TomlLine::Setting("max_connections"@, TomlValue::Number(200)),
        line_of(lines[22]) == TomlLine::Setting("enable_ssl"@, TomlValue::Flag(false)),
    ensures
        read_lines(lines.skip(18), table, so_far) == read_lines(
            lines.skip(23),
            "postgresql"@,
            so_far.insert("postgresql"@, postgresql_table(pg_port)),
        ),
{
    reveal_strlit("enabled");
    reveal_strlit("port");
    reveal_strlit("max_connections");
    reveal_strlit("enable_ssl");
    let t0 = Map::<Seq<char>, TomlValue>::empty();
    lemma_read_table(lines, 18, table, so_far, "postgresql"@);
    lemma_read_setting(lines, 19, "postgresql"@, so_far, t0, "enabled"@, TomlValue::Flag(true));
    let t1 = t0.insert("enabled"@, TomlValue::Flag(true));
    lemma_read_setting(
        lines,
        20,
        "postgresql"@,
        so_far,
        t1,
        "port"@,
        TomlValue::Number(pg_port as nat),
    );
    let t2 = t1.insert("port"@, TomlValue::Number(pg_port as nat));
    lemma_read_setting(
        lines,
        21,
        "postgresql"@,
        so_far,
        t2,
        "max_connections"@,
        TomlValue::Number(200),
    );
    let t3 = t2.insert("max_connections"@, TomlValue::Number(200));
    lemma_read_setting(lines, 22, "postgresql"@, so_far, t3, "enable_ssl"@, TomlValue::Flag(false));
}

proof fn lemma_read_auth(
    lines: Seq<Seq<char>>,
    table: Seq<char>,
    so_far: Document,
    password: Seq<char>,
)
    requires
        lines.len() >= 28,
        !so_far.contains_key("auth"@),
        line_of(lines[26]) == TomlLine::Table("auth"@),
        line_of(lines[27]) == TomlLine::Setting("password"@, TomlValue::Text(password)),
    ensures
        read_lines(lines.skip(26), table, so_far) == read_lines(
            lines.skip(28),
            "auth"@,
            so_far.insert("auth"@, auth_table(password)),
        ),
{
    reveal_strlit("password");
    let t0 = Map::<Seq<char>, TomlValue>::empty();
    lemma_read_table(lines, 26, table, so_far, "auth"@);
    lemma_read_setting(lines, 27, "auth"@, so_far, t0, "password"@, TomlValue::Text(password));
}

proof fn lemma_table_names_differ()
    ensures
        "server"@.len() == 6,
        "cache"@.len() == 5,
        "storage"@.len() == 7,
        "postgresql"@.len() == 10,
        "auth"@.len() == 4,
{
    reveal_strlit("server");
    reveal_strlit("cache");
    reveal_strlit("storage");
    reveal_strlit("postgresql");
    reveal_strlit("auth");
}

/// Reading the configuration file gives back what it was written from, each value under
/// its own key, where the directories and the password hold no quote, no backslash and,
/// tabs apart, no control character.
pub proof fn law_config_reads_back(
    pg_port: u16,
    mysql_port: u16,
    api_port: u16,
    quic_port: u16,
    data_dir: Seq<char>,
    wal_dir: Seq<char>,
    password: Seq<char>,
)
    requires
        is_plain(data_dir),
        is_plain(wal_dir),
        is_plain(password),
    ensures
        read_toml(
            config_toml(pg_port, mysql_port, api_port, quic_port, data_dir, wal_dir, password),
        ) == Some(
            config_document(
                pg_port,
                mysql_port,
                api_port,
                quic_port,
                data_dir,
                wal_dir,
                password,
            ),
        ),
{
    let lines = config_lines(
        pg_port,
        mysql_port,
        api_port,
        quic_port,
        data_dir,
        wal_dir,
        password,
    );
    lemma_no_line_feeds(pg_port, mysql_port, api_port, quic_port, data_dir, wal_dir, password);
    lemma_lines_of_joined(lines);
    lemma_server_lines(quic_port, api_port, mysql_port);
    lemma_cache_lines();
    lemma_storage_lines(data_dir, wal_dir);
    lemma_postgresql_lines(pg_port);
    lemma_auth_lines(password);
    lemma_other_lines();
    lemma_table_names_differ();
    let none = Seq::<char>::empty();
    let d0: Document = Map::empty();
    let d1 = d0.insert("server"@, server_table(quic_port, api_port, mysql_port));
    let d2 = d1.insert("cache"@, cache_table());
    let d3 = d2.insert("storage"@, storage_table(data_dir, wal_dir));
    let d4 = d3.insert("postgresql"@, postgresql_table(pg_port));
    let d5 = d4.insert("auth"@, auth_table(password));
    assert(lines.skip(0) =~= lines);
    lemma_read_nothing(lines, 0, none, d0);
    lemma_read_nothing(lines, 1, none, d0);
    lemma_read_server(lines, none, d0, quic_port, api_port, mysql_port);
    lemma_read_nothing(lines, 8, "server"@, d1);
    lemma_read_cache(lines, "server"@, d1);
    lemma_read_nothing(lines, 12, "cache"@, d2);
    lemma_read_storage(lines, "cache"@, d2, data_dir, wal_dir);
    lemma_read_nothing(lines, 17, "storage"@, d3);
    lemma_read_postgresql(lines, "storage"@, d3, pg_port);
    lemma_read_nothing(lines, 23, "postgresql"@, d4);
    lemma_read_nothing(lines, 24, "postgresql"@, d4);
    lemma_read_nothing(lines, 25, "postgresql"@, d4);
    lemma_read_auth(lines, "postgresql"@, d4, password);
    assert(lines.skip(28) =~= Seq::<Seq<char>>::empty());
    assert(read_lines(lines.skip(28), "auth"@, d5) == Some(d5));
}

/// A configuration file can be read, and the reading gives the ports, the directories and
/// the password back under the keys that stand for them.
pub proof fn law_config_gives_arguments_back(
    pg_port: u16,
    mysql_port: u16,
    api_port: u16,
    quic_port: u16,
    data_dir: Seq<char>,
    wal_dir: Seq<char>,
    password: Seq<char>,
)
    requires
        is_plain(data_dir),
        is_plain(wal_dir),
        is_plain(password),
    ensures
        ({
            let read = read_toml(
                config_toml(pg_port, mysql_port, api_port, quic_port, data_dir, wal_dir, password),
            );
            let file = read->0;
            &&& read is Some
            &&& file["server"@]["quic_port"@] == TomlValue::Number(quic_port as nat)
            &&& file["server"@]["api_port"@] == TomlValue::Number(api_port as nat)
            &&& file["server"@]["wire_port"@] == TomlValue::Number(mysql_port as nat)
            &&& file["postgresql"@]["port"@] == TomlValue::Number(pg_port as nat)
            &&& file["storage"@]["data_dir"@] == TomlValue::Text(data_dir)
            &&& file["storage"@]["wal_dir"@] == TomlValue::Text(wal_dir)
            &&& file["auth"@]["password"@] == TomlValue::Text(password)
        }),
{
    law_config_reads_back(pg_port, mysql_port, api_port, quic_port, data_dir, wal_dir, password);
    lemma_table_names_differ();
    reveal_strlit("quic_port");
    reveal_strlit("api_port");
    reveal_strlit("wire_port");
    reveal_strlit("max_connections");
    reveal_strlit("ram_limit_mb");
    reveal_strlit("data_dir");
    reveal_strlit("wal_dir");
    reveal_strlit("memtable_size_mb");
    reveal_strlit("port");
    reveal_strlit("enable_ssl");
    assert("quic_port"@[0] != "wire_port"@[0]);
    assert("quic_port"@.len() == 9);
    assert("api_port"@.len() == 8);
    assert("wire_port"@.len() == 9);
    assert("max_connections"@.len() == 15);
    assert("ram_limit_mb"@.len() == 12);
    assert("data_dir"@.len() == 8);
    assert("wal_dir"@.len() == 7);
    assert("memtable_size_mb"@.len() == 16);
    assert("port"@.len() == 4);
    assert("enable_ssl"@.len() == 10);
}

/// Different ports, directories or passwords give different configuration files.
pub proof fn law_config_is_injective(
    ports: (u16, u16, u16, u16),
    data_dir: Seq<char>,
    wal_dir: Seq<char>,
    password: Seq<char>,
    other_ports: (u16, u16, u16, u16),
    other_data_dir: Seq<char>,
    other_wal_dir: Seq<char>,
    other_password: Seq<char>,
)
    requires
        is_plain(data_dir),
        is_plain(wal_dir),
        is_plain(password),
        is_plain(other_data_dir),
        is_plain(other_wal_dir),
        is_plain(other_password),
        config_toml(ports.0, ports.1, ports.2, ports.3, data_dir, wal_dir, password)
            == config_toml(
            other_ports.0,
            other_ports.1,
            other_ports.2,
            other_ports.3,
            other_data_dir,
            other_wal_dir,
            other_password,
        ),
    ensures
        ports == other_ports,
        data_dir == other_data_dir,
        wal_dir == other_wal_dir,
        password == other_password,
{
    law_config_gives_arguments_back(
        ports.0,
        ports.1,
        ports.2,
        ports.3,
        data_dir,
        wal_dir,
        password,
    );
    law_config_gives_arguments_back(
        other_ports.0,
        other_ports.1,
        other_ports.2,
        other_ports.3,
        other_data_dir,
        other_wal_dir,
        other_password,
    );
}

/// What stands before, between and after the values of a configuration file.
spec fn config_frame() -> Seq<Seq<char>> {
    let feed = seq!['\n'];
    let quote = seq!['"'];
    seq![
        "# Auto-generated by mtpdb_manager — do not edit manually."@ + feed + ""@ + feed
            + "[server]"@ + feed + "quic_port      = "@,
        feed + "api_port       = "@,
        feed + "wire_port      = "@,
        feed + "max_connections = 10000"@ + feed + "ram_limit_mb   = 256"@ + feed + ""@ + feed
            + "[cache]"@ + feed + "hot_cache_size_mb = 64"@ + feed
            + "eviction_policy   = \"lru\""@ + feed + ""@ + feed + "[storage]"@ + feed
            + "data_dir          = "@ + quote,
        quote + feed + "wal_dir           = "@ + quote,
        quote + feed + "memtable_size_mb  = 32"@ + feed + ""@ + feed + "[postgresql]"@ + feed
            + "enabled         = true"@ + feed + "port            = "@,
        feed + "max_connections = 200"@ + feed + "enable_ssl      = false"@ + feed + ""@ + feed
            + "# The password below is returned to the caller at provisioning time."@ + feed
            + "# Wire it into the instance's auth configuration as needed."@ + feed + "[auth]"@
            + feed + "password = "@ + quote,
        quote + feed,
    ]
}

proof fn lemma_joined_take(lines: Seq<Seq<char>>, k: int)
    requires
        0 <= k < lines.len(),
    ensures
        joined(lines.take(k + 1)) == joined(lines.take(k)) + lines[k] + seq!['\n'],
{
    lemma_joined_push(lines.take(k), lines[k]);
    assert(lines.take(k).push(lines[k]) =~= lines.take(k + 1));
}

proof fn lemma_line_follows(x: Seq<char>, y: Seq<char>, line: Seq<char>)
    ensures
        x + y + line + seq!['\n'] == x + (y + line + seq!['\n']),
{
    assert(x + y + line + seq!['\n'] =~= x + (y + line + seq!['\n']));
}

proof fn lemma_number_follows(x: Seq<char>, y: Seq<char>, head: Seq<char>, number: Seq<char>)
    ensures
        x + y + (head + number) + seq!['\n'] == x + (y + head) + number + seq!['\n'],
{
    assert(x + y + (head + number) + seq!['\n'] =~= x + (y + head) + number + seq!['\n']);
}

proof fn lemma_quoted_follows(x: Seq<char>, y: Seq<char>, head: Seq<char>, s: Seq<char>)
    ensures
        x + y + (head + quoted(s)) + seq!['\n'] == x + (y + head + seq!['"']) + s + (seq!['"']
            + seq!['\n']),
{
    assert(x + y + (head + quoted(s)) + seq!['\n'] =~= x + (y + head + seq!['"']) + s + (
    seq!['"'] + seq!['\n']));
}

proof fn lemma_config_frame(
    pg_port: u16,
    mysql_port: u16,
    api_port: u16,
    quic_port: u16,
    data_dir: Seq<char>,
    wal_dir: Seq<char>,
    password: Seq<char>,
)
    ensures
        config_toml(pg_port, mysql_port, api_port, quic_port, data_dir, wal_dir, password) == ({
            let k = config_frame();
            k[0] + decimal(quic_port as nat) + k[1] + decimal(api_port as nat) + k[2]
                + decimal(mysql_port as nat) + k[3] + data_dir + k[4] + wal_dir + k[5]
                + decimal(pg_port as nat) + k[6] + password + k[7]
        }),
{
    let k = config_frame();
    let feed = seq!['\n'];
    let quote = seq!['"'];
    let lines = config_lines(pg_port, mysql_port, api_port, quic_port, data_dir, wal_dir, password);
    assert(lines.take(0) =~= Seq::<Seq<char>>::empty());
    lemma_joined_take(lines, 0);
    lemma_joined_take(lines, 1);
    lemma_joined_take(lines, 2);
    let text = lines[0] + feed;
    assert(joined(lines.take(1)) =~= text);
    lemma_joined_take(lines, 3);
    lemma_number_follows(
        Seq::empty(),
        text + lines[1] + feed + lines[2] + feed,
        "quic_port      = "@,
        decimal(quic_port as nat),
    );
    assert(Seq::empty() + (text + lines[1] + feed + lines[2] + feed) =~= text + lines[1] + feed
        + lines[2] + feed);
    assert(Seq::empty() + k[0] =~= k[0]);
    let x = k[0] + decimal(quic_port as nat);
    let y = feed;
    assert(joined(lines.take(4)) == x + y);
    lemma_joined_take(lines, 4);
    lemma_number_follows(x, y, "api_port       = "@, decimal(api_port as nat));
    let x = x + k[1] + decimal(api_port as nat);
    let y = feed;
    assert(joined(lines.take(5)) == x + y);
    lemma_joined_take(lines, 5);
    lemma_number_follows(x, y, "wire_port      = "@, decimal(mysql_port as nat));
    let x = x + k[2] + decimal(mysql_port as nat);
    let y = feed;
    assert(joined(lines.take(6)) == x + y);
    lemma_joined_take(lines, 6);
    lemma_line_follows(x, y, lines[6]);
    let y = y + lines[6] + feed;
    lemma_joined_take(lines, 7);
    lemma_line_follows(x, y, lines[7]);
    let y = y + lines[7] + feed;
    lemma_joined_take(lines, 8);
    lemma_line_follows(x, y, lines[8]);
    let y = y + lines[8] + feed;
    lemma_joined_take(lines, 9);
    lemma_line_follows(x, y, lines[9]);
    let y = y + lines[9] + feed;
    lemma_joined_take(lines, 10);
    lemma_line_follows(x, y, lines[10]);
    let y = y + lines[10] + feed;
    lemma_joined_take(lines, 11);
    lemma_line_follows(x, y, lines[11]);
    let y = y + lines[11] + feed;
    lemma_joined_take(lines, 12);
    lemma_line_follows(x, y, lines[12]);
    let y = y + lines[12] + feed;
    lemma_joined_take(lines, 13);
    lemma_line_follows(x, y, lines[13]);
    let y = y + lines[13] + feed;
    lemma_joined_take(lines, 14);
    lemma_quoted_follows(x, y, "data_dir          = "@, data_dir);
    let x = x + k[3] + data_dir;
    let y = quote + feed;
    assert(joined(lines.take(15)) == x + y);
    lemma_joined_take(lines, 15);
    lemma_quoted_follows(x, y, "wal_dir           = "@, wal_dir);
    let x = x + k[4] + wal_dir;
    let y = quote + feed;
    assert(joined(lines.take(16)) == x + y);
    lemma_joined_take(lines, 16);
    lemma_line_follows(x, y, lines[16]);
    let y = y + lines[16] + feed;
    lemma_joined_take(lines, 17);
    lemma_line_follows(x, y, lines[17]);
    let y = y + lines[17] + feed;
    lemma_joined_take(lines, 18);
    lemma_line_follows(x, y, lines[18]);
    let y = y + lines[18] + feed;
    lemma_joined_take(lines, 19);
    lemma_line_follows(x, y, lines[19]);
    let y = y + lines[19] + feed;
    lemma_joined_take(lines, 20);
    lemma_number_follows(x, y, "port            = "@, decimal(pg_port as nat));
    let x = x + k[5] + decimal(pg_port as nat);
    let y = feed;
    assert(joined(lines.take(21)) == x + y);
    lemma_joined_take(lines, 21);
    lemma_line_follows(x, y, lines[21]);
    let y = y + lines[21] + feed;
    lemma_joined_take(lines, 22);
    lemma_line_follows(x, y, lines[22]);
    let y = y + lines[22] + feed;
    lemma_joined_take(lines, 23);
    lemma_line_follows(x, y, lines[23]);
    let y = y + lines[23] + feed;
    lemma_joined_take(lines, 24);
    lemma_line_follows(x, y, lines[24]);
    let y = y + lines[24] + feed;
    lemma_joined_take(lines, 25);
    lemma_line_follows(x, y, lines[25]);
    let y = y + lines[25] + feed;
    lemma_joined_take(lines, 26);
    lemma_line_follows(x, y, lines[26]);
    let y = y + lines[26] + feed;
    lemma_joined_take(lines, 27);
    lemma_quoted_follows(x, y, "password = "@, password);
    let x = x + k[6] + password;
    let y = quote + feed;
    assert(joined(lines.take(28)) == x + y);
    assert(lines.take(28) =~= lines);
}

/// Whatever ports, directories and password a configuration file is written from, each of them
/// stands in its one place, just as it is, and what stands around them is always the same.
pub proof fn law_config_holds_its_arguments_as_they_are()
    ensures
        exists|k: Seq<Seq<char>>| #[trigger]
            k.len() == 8 && forall|
                pg_port: u16,
                mysql_port: u16,
                api_port: u16,
                quic_port: u16,
                data_dir: Seq<char>,
                wal_dir: Seq<char>,
                password: Seq<char>,
            | #[trigger]
                config_toml(pg_port, mysql_port, api_port, quic_port, data_dir, wal_dir, password)
                    == k[0] + decimal(quic_port as nat) + k[1] + decimal(api_port as nat) + k[2]
                        + decimal(mysql_port as nat) + k[3] + data_dir + k[4] + wal_dir + k[5]
                        + decimal(pg_port as nat) + k[6] + password + k[7],
{
    let k = config_frame();
    assert forall|
        pg_port: u16,
        mysql_port: u16,
        api_port: u16,
        quic_port: u16,
        data_dir: Seq<char>,
        wal_dir: Seq<char>,
        password: Seq<char>,
    | #[trigger]
        config_toml(pg_port, mysql_port, api_port, quic_port, data_dir, wal_dir, password)
            == k[0] + decimal(quic_port as nat) + k[1] + decimal(api_port as nat) + k[2]
                + decimal(mysql_port as nat) + k[3] + data_dir + k[4] + wal_dir + k[5]
                + decimal(pg_port as nat) + k[6] + password + k[7] by {
        lemma_config_frame(pg_port, mysql_port, api_port, quic_port, data_dir, wal_dir, password);
    }
    assert(k.len() == 8);
}

/// Apart from its ports, directories and password, every configuration file says the same: the
/// same limits, and nothing in any other table or under any other key.
pub proof fn law_config_has_fixed_settings(
    pg_port: u16,
    mysql_port: u16,
    api_port: u16,
    quic_port: u16,
    data_dir: Seq<char>,
    wal_dir: Seq<char>,
    password: Seq<char>,
)
    requires
        is_plain(data_dir),
        is_plain(wal_dir),
        is_plain(password),
    ensures
        ({
            let read = read_toml(
                config_toml(pg_port, mysql_port, api_port, quic_port, data_dir, wal_dir, password),
            );
            let file = read->0;
            &&& read is Some
            &&& file["server"@]["max_connections"@] == TomlValue::Number(10000)
            &&& file["server"@]["ram_limit_mb"@] == TomlValue::Number(256)
            &&& file["cache"@]["hot_cache_size_mb"@] == TomlValue::Number(64)
            &&& file["cache"@]["eviction_policy"@] == TomlValue::Text("lru"@)
            &&& file["storage"@]["memtable_size_mb"@] == TomlValue::Number(32)
            &&& file["postgresql"@]["enabled"@] == TomlValue::Flag(true)
            &&& file["postgresql"@]["max_connections"@] == TomlValue::Number(200)
            &&& file["postgresql"@]["enable_ssl"@] == TomlValue::Flag(false)
            &&& file.dom() == set!["server"@, "cache"@, "storage"@, "postgresql"@, "auth"@]
            &&& file["server"@].dom() == set![
                "quic_port"@,
                "api_port"@,
                "wire_port"@,
                "max_connections"@,
                "ram_limit_mb"@,
            ]
            &&& file["cache"@].dom() == set!["hot_cache_size_mb"@, "eviction_policy"@]
            &&& file["storage"@].dom() == set!["data_dir"@, "wal_dir"@, "memtable_size_mb"@]
            &&& file["postgresql"@].dom() == set![
                "enabled"@,
                "port"@,
                "max_connections"@,
                "enable_ssl"@,
            ]
            &&& file["auth"@].dom() == set!["password"@]
        }),
{
    law_config_reads_back(pg_port, mysql_port, api_port, quic_port, data_dir, wal_dir, password);
    lemma_table_names_differ();
    let file = config_document(
        pg_port,
        mysql_port,
        api_port,
        quic_port,
        data_dir,
        wal_dir,
        password,
    );
    reveal_strlit("max_connections");
    reveal_strlit("ram_limit_mb");
    reveal_strlit("hot_cache_size_mb");
    reveal_strlit("eviction_policy");
    reveal_strlit("enabled");
    reveal_strlit("port");
    reveal_strlit("enable_ssl");
    assert("max_connections"@.len() == 15);
    assert("ram_limit_mb"@.len() == 12);
    assert("hot_cache_size_mb"@.len() == 17);
    assert("eviction_policy"@.len() == 15);
    assert("enabled"@.len() == 7);
    assert("port"@.len() == 4);
    assert("enable_ssl"@.len() == 10);
    assert(file.dom() =~= set!["server"@, "cache"@, "storage"@, "postgresql"@, "auth"@]);
    assert(file["server"@].dom() =~= set![
        "quic_port"@,
        "api_port"@,
        "wire_port"@,
        "max_connections"@,
        "ram_limit_mb"@,
    ]);
    assert(file["cache"@].dom() =~= set!["hot_cache_size_mb"@, "eviction_policy"@]);
    assert(file["storage"@].dom() =~= set!["data_dir"@, "wal_dir"@, "memtable_size_mb"@]);
    assert(file["postgresql"@].dom() =~= set![
        "enabled"@,
        "port"@,
        "max_connections"@,
        "enable_ssl"@,
    ]);
    assert(file["auth"@].dom() =~= set!["password"@]);
}

} // verus!
