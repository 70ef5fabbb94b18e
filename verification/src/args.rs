//! Command-line arguments.
//!
//! Every flag is optional:
//!
//! - `--server-id <uuid>` (a random one by default)
//! - `--master-url <http://...>` (no registration without it)
//! - `--port <n>`: port of the supervisor (7001 by default)
//! - `--region <label>` ("default" by default)
//! - `--data-dir <path>`: base directory (./mtpdb_instances by default)
//! - `--mtpdb-bin <path>`: database binary (manaknightdb by default)
//! - `--pg-ports <start>-<end>` (15432-15532 by default)
//! - `--mysql-ports <start>-<end>` (13306-13406 by default)
//! - `--api-ports <start>-<end>` (18765-18865 by default)
//! - `--quic-ports <start>-<end>` (14433-14533 by default)

use crate::source::{is_uuid_v4, new_uuid};
use crate::text::{
    chars_of, decimal, first_place, is_digit, law_decimal_reads_back, lemma_decimal_digits,
    parse_u16, texts, u16_of,
};
use vstd::prelude::*;
use vstd::string::*;

verus! {

/// The port of the supervisor where none is given.
pub const DEFAULT_PORT: u16 = 7001;

/// What follows the first `flag` in `args`. A flag in the last place is followed by
/// nothing and does not count.
pub open spec fn flag_value(args: Seq<Seq<char>>, flag: Seq<char>) -> Option<Seq<char>> {
    if args.len() < 2 {
        None
    } else {
        match args.drop_last().index_of_first(flag) {
            Some(i) => Some(args[i + 1]),
            None => None,
        }
    }
}

/// What follows `flag` in `args`, or `default` where the flag is not given.
pub open spec fn flag_or(args: Seq<Seq<char>>, flag: Seq<char>, default: Seq<char>) -> Seq<char> {
    match flag_value(args, flag) {
        Some(value) => value,
        None => default,
    }
}

/// The range that `s` writes: two numbers, with the first hyphen of `s` between them.
pub open spec fn port_range(s: Seq<char>) -> Option<(u16, u16)> {
    match s.index_of_first('-') {
        Some(i) => match (u16_of(s.take(i)), u16_of(s.skip(i + 1))) {
            (Some(start), Some(end)) => Some((start, end)),
            _ => None,
        },
        None => None,
    }
}

/// The range that `s` writes, or the range from 0 to 0 where it writes none.
pub open spec fn port_range_or_zero(s: Seq<char>) -> (u16, u16) {
    match port_range(s) {
        Some(range) => range,
        None => (0, 0),
    }
}

/// What is said of a text that writes no range.
pub open spec fn port_range_warning(s: Seq<char>) -> Seq<char> {
    "Warning: could not parse port range '"@ + s + "', using 0-0"@
}

/// The settings of the supervisor.
#[derive(Debug)]
pub struct Config {
    pub server_id: String,
    pub master_url: Option<String>,
    pub port: u16,
    pub region: String,
    pub data_dir: String,
    pub mtpdb_bin: String,
    pub pg_ports: (u16, u16),
    pub mysql_ports: (u16, u16),
    pub api_ports: (u16, u16),
    pub quic_ports: (u16, u16),
}

/// What a [`Config`] says.
pub struct ConfigView {
    pub server_id: Seq<char>,
    pub master_url: Option<Seq<char>>,
    pub port: u16,
    pub region: Seq<char>,
    pub data_dir: Seq<char>,
    pub mtpdb_bin: Seq<char>,
    pub pg_ports: (u16, u16),
    pub mysql_ports: (u16, u16),
    pub api_ports: (u16, u16),
    pub quic_ports: (u16, u16),
}

impl View for Config {
    type V = ConfigView;

    open spec fn view(&self) -> ConfigView {
        ConfigView {
            server_id: self.server_id@,
            master_url: match self.master_url {
                Some(url) => Some(url@),
                None => None,
            },
            port: self.port,
            region: self.region@,
            data_dir: self.data_dir@,
            mtpdb_bin: self.mtpdb_bin@,
            pg_ports: self.pg_ports,
            mysql_ports: self.mysql_ports,
            api_ports: self.api_ports,
            quic_ports: self.quic_ports,
        }
    }
}

/// The text of the range of the PostgreSQL ports.
pub open spec fn pg_range_text(args: Seq<Seq<char>>) -> Seq<char> {
    flag_or(args, "--pg-ports"@, "15432-15532"@)
}

/// The text of the range of the MySQL ports.
pub open spec fn mysql_range_text(args: Seq<Seq<char>>) -> Seq<char> {
    flag_or(args, "--mysql-ports"@, "13306-13406"@)
}

/// The text of the range of the API ports.
pub open spec fn api_range_text(args: Seq<Seq<char>>) -> Seq<char> {
    flag_or(args, "--api-ports"@, "18765-18865"@)
}

/// The text of the range of the QUIC ports.
pub open spec fn quic_range_text(args: Seq<Seq<char>>) -> Seq<char> {
    flag_or(args, "--quic-ports"@, "14433-14533"@)
}

/// The settings that `args` ask for, with `random_id` for a server that is given no
/// identifier.
pub open spec fn settings(args: Seq<Seq<char>>, random_id: Seq<char>) -> ConfigView {
    ConfigView {
        server_id: flag_or(args, "--server-id"@, random_id),
        master_url: flag_value(args, "--master-url"@),
        port: match u16_of(flag_or(args, "--port"@, "7001"@)) {
            Some(port) => port,
            None => DEFAULT_PORT,
        },
        region: flag_or(args, "--region"@, "default"@),
        data_dir: flag_or(args, "--data-dir"@, "./mtpdb_instances"@),
        mtpdb_bin: flag_or(args, "--mtpdb-bin"@, "manaknightdb"@),
        pg_ports: port_range_or_zero(pg_range_text(args)),
        mysql_ports: port_range_or_zero(mysql_range_text(args)),
        api_ports: port_range_or_zero(api_range_text(args)),
        quic_ports: port_range_or_zero(quic_range_text(args)),
    }
}

/// The warning that `s` gives rise to, if any.
pub open spec fn warnings_of(s: Seq<char>) -> Seq<Seq<char>> {
    if port_range(s) is Some {
        Seq::empty()
    } else {
        seq![port_range_warning(s)]
    }
}

/// The warnings that `args` give rise to.
pub open spec fn all_warnings(args: Seq<Seq<char>>) -> Seq<Seq<char>> {
    warnings_of(pg_range_text(args)) + warnings_of(mysql_range_text(args)) + warnings_of(
        api_range_text(args),
    ) + warnings_of(quic_range_text(args))
}

/// Reads a range such as `15432-15532`. Where the text is no range, the result is the
/// range from 0 to 0, with a warning.
pub fn parse_port_range(s: &str) -> (res: ((u16, u16), Option<String>))
    ensures
        res.0 == port_range_or_zero(s@),
        match res.1 {
            Some(warning) => port_range(s@) is None && warning@ == port_range_warning(s@),
            None => port_range(s@) is Some,
        },
        port_range(s@) matches Some(range) ==> res.0 == range,
        port_range(s@) is None ==> res.0 == (0u16, 0u16) && res.1 is Some && res.1->0@
            == "Warning: could not parse port range '"@ + s@ + "', using 0-0"@,
{
    let chars = chars_of(s);
    if let Some(i) = first_place(&chars, '-') {
        let start = parse_u16(s.substring_char(0, i));
        let end = parse_u16(s.substring_char(i + 1, chars.len()));
        assert(s@.subrange(0, i as int) =~= s@.take(i as int));
        assert(s@.subrange(i + 1, s@.len() as int) =~= s@.skip(i + 1));
        if let (Some(start), Some(end)) = (start, end) {
            return ((start, end), None);
        }
    }
    let warning = "Warning: could not parse port range '".to_owned().concat(s).concat(
        "', using 0-0",
    );
    ((0, 0), Some(warning))
}

/// What follows the first `flag` in `args`.
pub fn find_flag(args: &Vec<String>, flag: &str) -> (res: Option<String>)
    ensures
        match res {
            Some(value) => flag_value(texts(args@), flag@) == Some(value@),
            None => flag_value(texts(args@), flag@) is None,
        },
{
    let wanted = flag.to_owned();
    if args.len() < 2 {
        return None;
    }
    let ghost places = texts(args@).drop_last();
    let last: usize = args.len() - 1;
    let mut i: usize = 0;
    while i < last
        invariant
            i <= last,
            last == args@.len() - 1,
            wanted@ == flag@,
            places == texts(args@).drop_last(),
            forall|j: int| 0 <= j < i ==> (#[trigger] places[j]) != flag@,
        decreases last - i,
    {
        if args[i] == wanted {
            proof {
                places.index_of_first_ensures(flag@);
                assert(places[i as int] == flag@);
                assert(texts(args@)[i + 1] == args@[i + 1]@);
            }
            return Some(args[i + 1].clone());
        }
        i = i + 1;
    }
    proof {
        places.index_of_first_ensures(flag@);
    }
    None
}

/// What follows `flag` in `args`, or `default` where the flag is not given.
pub fn find_flag_or(args: &Vec<String>, flag: &str, default: &str) -> (res: String)
    ensures
        res@ == flag_or(texts(args@), flag@, default@),
{
    match find_flag(args, flag) {
        Some(value) => value,
        None => default.to_owned(),
    }
}

/// Reads a range, and adds its warning to `warnings`.
fn range_and_warning(s: &str, warnings: &mut Vec<String>) -> (res: (u16, u16))
    ensures
        res == port_range_or_zero(s@),
        texts(final(warnings)@) == texts(old(warnings)@) + warnings_of(s@),
{
    let (range, warning) = parse_port_range(s);
    if let Some(warning) = warning {
        warnings.push(warning);
    }
    assert(texts(warnings@) =~= texts(old(warnings)@) + warnings_of(s@));
    range
}

/// The settings that `args` ask for and the warnings that they give rise to, with
/// `random_id` for a server that is given no identifier.
pub fn config_from_args(args: &Vec<String>, random_id: &str) -> (res: (Config, Vec<String>))
    ensures
        res.0@ == settings(texts(args@), random_id@),
        texts(res.1@) == all_warnings(texts(args@)),
{
    let port = match parse_u16(find_flag_or(args, "--port", "7001").as_str()) {
        Some(port) => port,
        None => DEFAULT_PORT,
    };
    let pg_range = find_flag_or(args, "--pg-ports", "15432-15532");
    let mysql_range = find_flag_or(args, "--mysql-ports", "13306-13406");
    let api_range = find_flag_or(args, "--api-ports", "18765-18865");
    let quic_range = find_flag_or(args, "--quic-ports", "14433-14533");
    let mut warnings: Vec<String> = Vec::new();
    let pg_ports = range_and_warning(pg_range.as_str(), &mut warnings);
    let mysql_ports = range_and_warning(mysql_range.as_str(), &mut warnings);
    let api_ports = range_and_warning(api_range.as_str(), &mut warnings);
    let quic_ports = range_and_warning(quic_range.as_str(), &mut warnings);
    let config = Config {
        server_id: find_flag_or(args, "--server-id", random_id),
        master_url: find_flag(args, "--master-url"),
        port,
        region: find_flag_or(args, "--region", "default"),
        data_dir: find_flag_or(args, "--data-dir", "./mtpdb_instances"),
        mtpdb_bin: find_flag_or(args, "--mtpdb-bin", "manaknightdb"),
        pg_ports,
        mysql_ports,
        api_ports,
        quic_ports,
    };
    assert(texts(warnings@) =~= all_warnings(texts(args@)));
    (config, warnings)
}

/// The settings that `args` ask for and the warnings that they give rise to. A server
/// that is given no identifier gets a random one.
pub fn parse_args(args: &Vec<String>) -> (res: (Config, Vec<String>))
    ensures
        exists|id: Seq<char>| is_uuid_v4(id) && res.0@ == #[trigger] settings(texts(args@), id),
        texts(res.1@) == all_warnings(texts(args@)),
{
    let id = new_uuid();
    config_from_args(args, id.as_str())
}

/// A range written as its first port, a hyphen and its last port reads back as that
/// range.
pub proof fn law_port_range_reads_back(start: u16, end: u16)
    ensures
        port_range(decimal(start as nat) + seq!['-'] + decimal(end as nat)) == Some((start, end)),
{
    let first = decimal(start as nat);
    let last = decimal(end as nat);
    let s = first + seq!['-'] + last;
    lemma_decimal_digits(start as nat);
    law_decimal_reads_back(start);
    law_decimal_reads_back(end);
    s.index_of_first_ensures('-');
    assert(s[first.len() as int] == '-');
    assert(s.contains('-'));
    let i = s.index_of_first('-')->0;
    if i < first.len() {
        assert(s[i] == first[i]);
        assert(is_digit(first[i]));
    }
    assert(s.take(i) =~= first);
    assert(s.skip(i + 1) =~= last);
}

/// A text without a hyphen writes no range.
pub proof fn law_range_needs_a_hyphen(s: Seq<char>)
    requires
        !s.contains('-'),
    ensures
        port_range(s) is None,
        port_range_or_zero(s) == (0u16, 0u16),
        warnings_of(s) == seq![port_range_warning(s)],
{
    s.index_of_first_ensures('-');
}

/// A flag has the value that follows its first occurrence.
pub proof fn law_first_flag_counts(args: Seq<Seq<char>>, flag: Seq<char>, i: int)
    requires
        0 <= i < args.len() - 1,
        args[i] == flag,
        forall|j: int| 0 <= j < i ==> args[j] != flag,
    ensures
        flag_value(args, flag) == Some(args[i + 1]),
{
    let places = args.drop_last();
    places.index_of_first_ensures(flag);
    assert(places[i] == flag);
    assert(places.contains(flag));
    let k = places.index_of_first(flag)->0;
    assert(places[k] == args[k]);
}

/// A flag has no value where it stands nowhere, or in the last place alone.
pub proof fn law_missing_flag_has_no_value(args: Seq<Seq<char>>, flag: Seq<char>)
    requires
        forall|j: int| 0 <= j < args.len() - 1 ==> args[j] != flag,
    ensures
        flag_value(args, flag) is None,
{
    if args.len() >= 2 {
        let places = args.drop_last();
        places.index_of_first_ensures(flag);
    }
}

/// Arguments in front that are not the flag, such as the name of the program, do not
/// change its value.
pub proof fn law_other_arguments_are_skipped(
    other: Seq<char>,
    args: Seq<Seq<char>>,
    flag: Seq<char>,
)
    requires
        other != flag,
    ensures
        flag_value(seq![other] + args, flag) == flag_value(args, flag),
{
    let longer = seq![other] + args;
    if args.len() < 2 {
        law_missing_flag_has_no_value(longer, flag);
    } else if args.drop_last().contains(flag) {
        let places = args.drop_last();
        places.index_of_first_ensures(flag);
        let i = places.index_of_first(flag)->0;
        assert forall|j: int| 0 <= j < i implies args[j] != flag by {
            assert(places[j] == args[j]);
        }
        law_first_flag_counts(args, flag, i);
        assert forall|j: int| 0 <= j < i + 1 implies longer[j] != flag by {
            if j > 0 {
                assert(longer[j] == args[j - 1]);
            }
        }
        assert(longer[i + 1] == args[i]);
        law_first_flag_counts(longer, flag, i + 1);
    } else {
        assert forall|j: int| 0 <= j < args.len() - 1 implies args[j] != flag by {
            assert(args.drop_last()[j] == args[j]);
        }
        assert forall|j: int| 0 <= j < longer.len() - 1 implies longer[j] != flag by {
            if j > 0 {
                assert(longer[j] == args[j - 1]);
            }
        }
        law_missing_flag_has_no_value(args, flag);
        law_missing_flag_has_no_value(longer, flag);
    }
}

/// Whether none of the flags has a value.
pub open spec fn no_flags(args: Seq<Seq<char>>) -> bool {
    &&& flag_value(args, "--server-id"@) is None
    &&& flag_value(args, "--master-url"@) is None
    &&& flag_value(args, "--port"@) is None
    &&& flag_value(args, "--region"@) is None
    &&& flag_value(args, "--data-dir"@) is None
    &&& flag_value(args, "--mtpdb-bin"@) is None
    &&& flag_value(args, "--pg-ports"@) is None
    &&& flag_value(args, "--mysql-ports"@) is None
    &&& flag_value(args, "--api-ports"@) is None
    &&& flag_value(args, "--quic-ports"@) is None
}

/// Without flags the settings are the documented defaults, and nothing is warned of.
pub proof fn law_defaults(args: Seq<Seq<char>>, random_id: Seq<char>)
    requires
        no_flags(args),
    ensures
        settings(args, random_id) == (ConfigView {
            server_id: random_id,
            master_url: None,
            port: 7001,
            region: "default"@,
            data_dir: "./mtpdb_instances"@,
            mtpdb_bin: "manaknightdb"@,
            pg_ports: (15432, 15532),
            mysql_ports: (13306, 13406),
            api_ports: (18765, 18865),
            quic_ports: (14433, 14533),
        }),
        all_warnings(args) == Seq::<Seq<char>>::empty(),
{
    reveal_with_fuel(decimal, 5);
    reveal_strlit("7001");
    reveal_strlit("15432-15532");
    reveal_strlit("13306-13406");
    reveal_strlit("18765-18865");
    reveal_strlit("14433-14533");
    law_decimal_reads_back(7001);
    assert("7001"@ =~= decimal(7001));
    law_port_range_reads_back(15432, 15532);
    assert("15432-15532"@ =~= decimal(15432) + seq!['-'] + decimal(15532));
    law_port_range_reads_back(13306, 13406);
    assert("13306-13406"@ =~= decimal(13306) + seq!['-'] + decimal(13406));
    law_port_range_reads_back(18765, 18865);
    assert("18765-18865"@ =~= decimal(18765) + seq!['-'] + decimal(18865));
    law_port_range_reads_back(14433, 14533);
    assert("14433-14533"@ =~= decimal(14433) + seq!['-'] + decimal(14533));
}

/// What the settings say is what stands in their fields.
pub proof fn law_config_fields(config: Config)
    ensures
        config@.server_id == config.server_id@,
        config.master_url matches Some(url) ==> config@.master_url == Some(url@),
        config.master_url is None ==> config@.master_url is None,
        config@.port == config.port,
        config@.region == config.region@,
        config@.data_dir == config.data_dir@,
        config@.mtpdb_bin == config.mtpdb_bin@,
        config@.pg_ports == config.pg_ports,
        config@.mysql_ports == config.mysql_ports,
        config@.api_ports == config.api_ports,
        config@.quic_ports == config.quic_ports,
{
}

/// A range is two numbers around its first hyphen, whatever they are, and nothing else.
pub proof fn law_range_is_two_numbers(first: Seq<char>, last: Seq<char>, start: u16, end: u16)
    requires
        !first.contains('-'),
    ensures
        port_range(first + seq!['-'] + last) == Some((start, end)) <==> u16_of(first) == Some(start)
            && u16_of(last) == Some(end),
        port_range(first + seq!['-'] + last) is None <==> u16_of(first) is None || u16_of(
            last,
        ) is None,
{
    let s = first + seq!['-'] + last;
    s.index_of_first_ensures('-');
    assert(s[first.len() as int] == '-');
    assert(s.contains('-'));
    let i = s.index_of_first('-')->0;
    if i < first.len() {
        assert(first[i] == s[i]);
    }
    assert(s.take(i) =~= first);
    assert(s.skip(i + 1) =~= last);
}

/// A text that is a range stands for that range. Any other stands for the range from 0 to 0,
/// with one warning that names the text.
pub proof fn law_what_is_no_range_is_zero(s: Seq<char>)
    ensures
        port_range(s) matches Some(range) ==> port_range_or_zero(s) == range && warnings_of(s).len()
            == 0,
        port_range(s) is None ==> port_range_or_zero(s) == (0u16, 0u16) && warnings_of(s) == seq![
            "Warning: could not parse port range '"@ + s + "', using 0-0"@,
        ],
        port_range_warning(s) == "Warning: could not parse port range '"@ + s + "', using 0-0"@,
{
}

/// Each setting that is a text or a number follows its own flag, whatever else is given:
/// without the flag it is the documented default, and with it, what the flag is given.
pub proof fn law_each_setting_follows_its_own_flag(args: Seq<Seq<char>>, random_id: Seq<char>)
    ensures
        flag_value(args, "--server-id"@) is None ==> settings(args, random_id).server_id
            == random_id,
        flag_value(args, "--server-id"@) matches Some(v) ==> settings(args, random_id).server_id
            == v,
        settings(args, random_id).master_url == flag_value(args, "--master-url"@),
        flag_value(args, "--port"@) is None ==> settings(args, random_id).port == 7001,
        flag_value(args, "--port"@) matches Some(v) ==> (u16_of(v) matches Some(n) ==> settings(
            args,
            random_id,
        ).port == n),
        flag_value(args, "--port"@) matches Some(v) ==> (u16_of(v) is None ==> settings(
            args,
            random_id,
        ).port == 7001),
        flag_value(args, "--region"@) is None ==> settings(args, random_id).region == "default"@,
        flag_value(args, "--region"@) matches Some(v) ==> settings(args, random_id).region == v,
        flag_value(args, "--data-dir"@) is None ==> settings(args, random_id).data_dir
            == "./mtpdb_instances"@,
        flag_value(args, "--data-dir"@) matches Some(v) ==> settings(args, random_id).data_dir == v,
        flag_value(args, "--mtpdb-bin"@) is None ==> settings(args, random_id).mtpdb_bin
            == "manaknightdb"@,
        flag_value(args, "--mtpdb-bin"@) matches Some(v) ==> settings(args, random_id).mtpdb_bin
            == v,
{
    reveal_with_fuel(decimal, 4);
    reveal_strlit("7001");
    law_decimal_reads_back(7001);
    assert("7001"@ =~= decimal(7001));
}

proof fn lemma_default_ranges()
    ensures
        port_range("15432-15532"@) == Some((15432u16, 15532u16)),
        port_range("13306-13406"@) == Some((13306u16, 13406u16)),
        port_range("18765-18865"@) == Some((18765u16, 18865u16)),
        port_range("14433-14533"@) == Some((14433u16, 14533u16)),
{
    reveal_with_fuel(decimal, 5);
    reveal_strlit("15432-15532");
    reveal_strlit("13306-13406");
    reveal_strlit("18765-18865");
    reveal_strlit("14433-14533");
    law_port_range_reads_back(15432, 15532);
    assert("15432-15532"@ =~= decimal(15432) + seq!['-'] + decimal(15532));
    law_port_range_reads_back(13306, 13406);
    assert("13306-13406"@ =~= decimal(13306) + seq!['-'] + decimal(13406));
    law_port_range_reads_back(18765, 18865);
    assert("18765-18865"@ =~= decimal(18765) + seq!['-'] + decimal(18865));
    law_port_range_reads_back(14433, 14533);
    assert("14433-14533"@ =~= decimal(14433) + seq!['-'] + decimal(14533));
}

/// Each range follows its own flag, whatever else is given: without the flag it is the
/// documented default, with it the range that the flag is given, and the range from 0 to 0
/// where the flag is given anything else.
pub proof fn law_each_range_follows_its_own_flag(args: Seq<Seq<char>>, random_id: Seq<char>)
    ensures
        ({
            let config = settings(args, random_id);
            let follows = |flag: Seq<char>, range: (u16, u16), default: (u16, u16)|
                match flag_value(args, flag) {
                    None => range == default,
                    Some(v) => match port_range(v) {
                        Some(given) => range == given,
                        None => range == (0u16, 0u16),
                    },
                };
            &&& follows("--pg-ports"@, config.pg_ports, (15432, 15532))
            &&& follows("--mysql-ports"@, config.mysql_ports, (13306, 13406))
            &&& follows("--api-ports"@, config.api_ports, (18765, 18865))
            &&& follows("--quic-ports"@, config.quic_ports, (14433, 14533))
        }),
{
    lemma_default_ranges();
}

/// The warnings are those of the four range flags, in the order of the pools. A flag gives
/// rise to one only where it is given something that is no range, and the warning names it.
pub proof fn law_warnings_come_of_their_flags(args: Seq<Seq<char>>)
    ensures
        ({
            let said = |flag: Seq<char>|
                match flag_value(args, flag) {
                    Some(v) => if port_range(v) is None {
                        seq!["Warning: could not parse port range '"@ + v + "', using 0-0"@]
                    } else {
                        Seq::empty()
                    },
                    None => Seq::empty(),
                };
            all_warnings(args) == said("--pg-ports"@) + said("--mysql-ports"@) + said(
                "--api-ports"@,
            ) + said("--quic-ports"@)
        }),
{
    lemma_default_ranges();
}

/// Two sets of arguments that agree on a flag agree on its setting.
pub proof fn law_other_flags_do_not_matter(
    a: Seq<Seq<char>>,
    b: Seq<Seq<char>>,
    random_id: Seq<char>,
)
    ensures
        flag_value(a, "--server-id"@) == flag_value(b, "--server-id"@) ==> settings(
            a,
            random_id,
        ).server_id == settings(b, random_id).server_id,
        flag_value(a, "--master-url"@) == flag_value(b, "--master-url"@) ==> settings(
            a,
            random_id,
        ).master_url == settings(b, random_id).master_url,
        flag_value(a, "--port"@) == flag_value(b, "--port"@) ==> settings(a, random_id).port
            == settings(b, random_id).port,
        flag_value(a, "--region"@) == flag_value(b, "--region"@) ==> settings(a, random_id).region
            == settings(b, random_id).region,
        flag_value(a, "--data-dir"@) == flag_value(b, "--data-dir"@) ==> settings(
            a,
            random_id,
        ).data_dir == settings(b, random_id).data_dir,
        flag_value(a, "--mtpdb-bin"@) == flag_value(b, "--mtpdb-bin"@) ==> settings(
            a,
            random_id,
        ).mtpdb_bin == settings(b, random_id).mtpdb_bin,
        flag_value(a, "--pg-ports"@) == flag_value(b, "--pg-ports"@) ==> settings(
            a,
            random_id,
        ).pg_ports == settings(b, random_id).pg_ports,
        flag_value(a, "--mysql-ports"@) == flag_value(b, "--mysql-ports"@) ==> settings(
            a,
            random_id,
        ).mysql_ports == settings(b, random_id).mysql_ports,
        flag_value(a, "--api-ports"@) == flag_value(b, "--api-ports"@) ==> settings(
            a,
            random_id,
        ).api_ports == settings(b, random_id).api_ports,
        flag_value(a, "--quic-ports"@) == flag_value(b, "--quic-ports"@) ==> settings(
            a,
            random_id,
        ).quic_ports == settings(b, random_id).quic_ports,
{
}

} // verus!
