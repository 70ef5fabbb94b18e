//! The configuration file of one database instance.

use crate::text::{decimal, texts, u16_to_text};
use crate::toml_text::{joined, lemma_joined_push, quoted};
use vstd::prelude::*;
use vstd::string::*;

verus! {

/// The lines of the configuration file.
pub open spec fn config_lines(
    pg_port: u16,
    mysql_port: u16,
    api_port: u16,
    quic_port: u16,
    data_dir: Seq<char>,
    wal_dir: Seq<char>,
    password: Seq<char>,
) -> Seq<Seq<char>> {
    seq![
        "# Auto-generated by mtpdb_manager — do not edit manually."@,
        ""@,
        "[server]"@,
        "quic_port      = "@ + decimal(quic_port as nat),
        "api_port       = "@ + decimal(api_port as nat),
        "wire_port      = "@ + decimal(mysql_port as nat),
        "max_connections = 10000"@,
        "ram_limit_mb   = 256"@,
        ""@,
        "[cache]"@,
        "hot_cache_size_mb = 64"@,
        "eviction_policy   = \"lru\""@,
        ""@,
        "[storage]"@,
        "data_dir          = "@ + quoted(data_dir),
        "wal_dir           = "@ + quoted(wal_dir),
        "memtable_size_mb  = 32"@,
        ""@,
        "[postgresql]"@,
        "enabled         = true"@,
        "port            = "@ + decimal(pg_port as nat),
        "max_connections = 200"@,
        "enable_ssl      = false"@,
        ""@,
        "# The password below is returned to the caller at provisioning time."@,
        "# Wire it into the instance's auth configuration as needed."@,
        "[auth]"@,
        "password = "@ + quoted(password),
    ]
}

/// The text of the configuration file.
pub open spec fn config_toml(
    pg_port: u16,
    mysql_port: u16,
    api_port: u16,
    quic_port: u16,
    data_dir: Seq<char>,
    wal_dir: Seq<char>,
    password: Seq<char>,
) -> Seq<char> {
    joined(
        config_lines(pg_port, mysql_port, api_port, quic_port, data_dir, wal_dir, password),
    )
}

/// `key` followed by a number.
fn number_line(key: &str, n: u16) -> (res: String)
    ensures
        res@ == key@ + decimal(n as nat),
{
    key.to_owned().concat(u16_to_text(n).as_str())
}

/// `key` followed by `s` between quotes.
fn quoted_line(key: &str, s: &str) -> (res: String)
    ensures
        res@ == key@ + quoted(s@),
{
    let mut res = key.to_owned();
    res.push('"');
    res.append(s);
    res.push('"');
    assert(res@ =~= key@ + quoted(s@));
    res
}

/// A text of `lines`, each ended by a line feed.
fn join_lines(lines: &Vec<String>) -> (res: String)
    ensures
        res@ == joined(texts(lines@)),
{
    let mut res = String::new();
    let mut i: usize = 0;
    while i < lines.len()
        invariant
            i <= lines@.len(),
            res@ == joined(texts(lines@).take(i as int)),
        decreases lines@.len() - i,
    {
        res.append(lines[i].as_str());
        res.push('\n');
        proof {
            lemma_joined_push(texts(lines@).take(i as int), lines@[i as int]@);
            assert(texts(lines@).take(i + 1) =~= texts(lines@).take(i as int).push(
                lines@[i as int]@,
            ));
            assert(res@ =~= joined(texts(lines@).take(i + 1)));
        }
        i = i + 1;
    }
    assert(texts(lines@).take(i as int) =~= texts(lines@));
    res
}

/// Writes the configuration file of an instance.
///
/// The `[auth]` section is a forward-looking placeholder: whether the password is
/// enforced depends on the instance.
pub fn build_config_toml(
    pg_port: u16,
    mysql_port: u16,
    api_port: u16,
    quic_port: u16,
    data_dir: &str,
    wal_dir: &str,
    password: &str,
) -> (res: String)
    ensures
        res@ == config_toml(
            pg_port,
            mysql_port,
            api_port,
            quic_port,
            data_dir@,
            wal_dir@,
            password@,
        ),
{
    let mut lines: Vec<String> = Vec::new();
    lines.push("# Auto-generated by mtpdb_manager — do not edit manually.".to_owned());
    lines.push("".to_owned());
    lines.push("[server]".to_owned());
    lines.push(number_line("quic_port      = ", quic_port));
    lines.push(number_line("api_port       = ", api_port));
    lines.push(number_line("wire_port      = ", mysql_port));
    lines.push("max_connections = 10000".to_owned());
    lines.push("ram_limit_mb   = 256".to_owned());
    lines.push("".to_owned());
    lines.push("[cache]".to_owned());
    lines.push("hot_cache_size_mb = 64".to_owned());
    lines.push("eviction_policy   = \"lru\"".to_owned());
    lines.push("".to_owned());
    lines.push("[storage]".to_owned());
    lines.push(quoted_line("data_dir          = ", data_dir));
    lines.push(quoted_line("wal_dir           = ", wal_dir));
    lines.push("memtable_size_mb  = 32".to_owned());
    lines.push("".to_owned());
    lines.push("[postgresql]".to_owned());
    lines.push("enabled         = true".to_owned());
    lines.push(number_line("port            = ", pg_port));
    lines.push("max_connections = 200".to_owned());
    lines.push("enable_ssl      = false".to_owned());
    lines.push("".to_owned());
    lines.push("# The password below is returned to the caller at provisioning time.".to_owned());
    lines.push("# Wire it into the instance's auth configuration as needed.".to_owned());
    lines.push("[auth]".to_owned());
    lines.push(quoted_line("password = ", password));
    assert(texts(lines@) =~= config_lines(
        pg_port,
        mysql_port,
        api_port,
        quic_port,
        data_dir@,
        wal_dir@,
        password@,
    ));
    join_lines(&lines)
}

} // verus!
