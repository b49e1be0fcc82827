use vstd::prelude::*;
use crate::create::CreateSession;
use crate::delete::DeleteSession;
use crate::records::Ipv6Address;

verus! {

/// The lower-case form of a text, as Unicode defines it.
pub uninterp spec fn lower_of(s: Seq<char>) -> Seq<char>;

/// Relies on `str::to_lowercase`: its result depends on the characters alone.
#[verifier::external_body]
fn lowercase(s: &str) -> (r: String)
    ensures
        r@ == lower_of(s@),
{
    s.to_lowercase()
}

/// Whether an already lower-cased flag value turns the flag on.
pub fn means_true(lowered: &String) -> (r: bool)
    ensures
        r == (lowered@ == "true"@),
{
    *lowered == String::from_str("true")
}

/// Whether a flag value turns the flag on: `true` in any case.
pub fn flag_is_set(value: &str) -> (r: bool)
    ensures
        r == (lower_of(value@) == "true"@),
{
    means_true(&lowercase(value))
}

/// What a run is asked to do.
#[derive(Clone, Copy, Debug, PartialEq, Eq, Structural)]
pub enum Command {
    /// Create a record for each name.
    Create,
    /// Delete the records that bear one of the names.
    Delete,
    /// Any other token: nothing is done.
    Unrecognized,
}

/// The command that an already lower-cased token names.
pub open spec fn command_for(lowered: Seq<char>) -> Command {
    if lowered == "create"@ {
        Command::Create
    } else if lowered == "delete"@ {
        Command::Delete
    } else {
        Command::Unrecognized
    }
}

/// The command that an already lower-cased token names.
pub fn command_of_lowered(lowered: &String) -> (c: Command)
    ensures
        c == command_for(lowered@),
{
    if *lowered == String::from_str("create") {
        Command::Create
    } else if *lowered == String::from_str("delete") {
        Command::Delete
    } else {
        Command::Unrecognized
    }
}

/// The command a token names, in any case; `create` where there is no token.
pub fn parse_command(token: Option<&str>) -> (c: Command)
    ensures
        token is None ==> c == Command::Create,
        token matches Some(t) ==> c == command_for(lower_of(t@)),
{
    match token {
        Some(t) => command_of_lowered(&lowercase(t)),
        None => Command::Create,
    }
}

/// Splitting at commas, up to the end of `s`: the non-empty fields that a
/// comma has closed, and the field still open.
pub open spec fn split_state(s: Seq<char>) -> (Seq<Seq<char>>, Seq<char>)
    decreases s.len(),
{
    if s.len() == 0 {
        (seq![], seq![])
    } else {
        let (done, open) = split_state(s.drop_last());
        if s.last() == ',' {
            (if open.len() > 0 { done.push(open) } else { done }, seq![])
        } else {
            (done, open.push(s.last()))
        }
    }
}

/// The domain names of a comma-separated list: its non-empty fields, in order.
pub open spec fn domain_names(s: Seq<char>) -> Seq<Seq<char>> {
    let (done, open) = split_state(s);
    if open.len() > 0 {
        done.push(open)
    } else {
        done
    }
}

pub open spec fn texts(v: Seq<String>) -> Seq<Seq<char>> {
    v.map_values(|x: String| x@)
}

/// Splits a comma-separated list of domain names. Empty fields are no names,
/// so an empty list gives none.
pub fn split_domains(list: &str) -> (r: Vec<String>)
    ensures
        texts(r@) == domain_names(list@),
{
    let n: usize = list.unicode_len();
    let mut names: Vec<String> = Vec::new();
    let mut start: usize = 0;
    let mut i: usize = 0;
    while i < n
        invariant
            n == list@.len(),
            start <= i <= n,
            split_state(list@.take(i as int)) == (texts(names@), list@.subrange(start as int, i as int)),
        decreases n - i,
    {
        let c = list.get_char(i);
        let ghost s = list@.take(i + 1);
        assert(s.drop_last() == list@.take(i as int));
        assert(s.last() == c);
        if c == ',' {
            if start < i {
                let field = list.substring_char(start, i);
                let ghost before = names@;
                names.push(String::from_str(field));
                assert(texts(names@) == texts(before).push(field@));
            }
            start = i + 1;
            assert(list@.subrange(start as int, start as int) == Seq::<char>::empty());
        } else {
            assert(list@.subrange(start as int, i + 1) == list@.subrange(start as int, i as int).push(c));
        }
        i = i + 1;
    }
    assert(list@.take(n as int) == list@);
    if start < n {
        let field = list.substring_char(start, n);
        let ghost before = names@;
        names.push(String::from_str(field));
        assert(texts(names@) == texts(before).push(field@));
    }
    names
}

/// The address setting as the caller found it.
#[derive(Clone, Copy, Debug, PartialEq, Eq, Structural)]
pub enum AddressSetting {
    Missing,
    Unparsable,
    Parsed(Ipv6Address),
}

/// The settings as given, before any check.
#[derive(Clone, Debug)]
pub struct RawConfig {
    pub skip_dns: Option<String>,
    pub fqdns: Option<String>,
    pub ipv6_addr: AddressSetting,
    pub zone_id: Option<String>,
    pub api_email: Option<String>,
    pub api_token: Option<String>,
    pub command: Option<String>,
}

/// A required setting that is missing or cannot be used.
#[derive(Clone, Copy, Debug, PartialEq, Eq, Structural)]
pub enum ConfigError {
    MissingAddress,
    InvalidAddress,
    MissingZoneId,
    MissingApiEmail,
    MissingApiToken,
}

/// Checked settings for a run.
#[derive(Clone, Debug)]
pub struct Config {
    pub zone_id: String,
    pub address: Ipv6Address,
    pub domains: Vec<String>,
    pub api_email: String,
    pub api_token: String,
    pub command: Command,
}

/// How a start ends before any provider call, or the run it leads to.
#[derive(Clone, Debug)]
pub enum Startup {
    /// The skip flag is set: nothing is done.
    SkipDns,
    /// No domain names are given: nothing is done.
    NoDomains,
    Run(Config),
}

pub open spec fn skip_requested(skip_dns: Option<String>) -> bool {
    skip_dns matches Some(v) && lower_of(v@) == "true"@
}

pub open spec fn listed_domains(fqdns: Option<String>) -> Seq<Seq<char>> {
    match fqdns {
        Some(list) => domain_names(list@),
        None => seq![],
    }
}

pub open spec fn command_given(command: Option<String>) -> Command {
    match command {
        Some(t) => command_for(lower_of(t@)),
        None => Command::Create,
    }
}

/// Checks the settings, in this order: the skip flag, which overrides all
/// else; the domain list; then the address, the zone, the e-mail and the
/// token, each required.
pub fn load_config(raw: RawConfig) -> (r: Result<Startup, ConfigError>)
    ensures
        skip_requested(raw.skip_dns) ==> r matches Ok(Startup::SkipDns),
        !skip_requested(raw.skip_dns) && listed_domains(raw.fqdns).len() == 0 ==> r matches Ok(Startup::NoDomains),
        !skip_requested(raw.skip_dns) && listed_domains(raw.fqdns).len() > 0 ==> {
            &&& (raw.ipv6_addr is Missing) ==> r == Err::<Startup, ConfigError>(ConfigError::MissingAddress)
            &&& (raw.ipv6_addr is Unparsable) ==> r == Err::<Startup, ConfigError>(ConfigError::InvalidAddress)
            &&& raw.ipv6_addr is Parsed && raw.zone_id is None ==> r == Err::<Startup, ConfigError>(ConfigError::MissingZoneId)
            &&& raw.ipv6_addr is Parsed && raw.zone_id is Some && raw.api_email is None
                ==> r == Err::<Startup, ConfigError>(ConfigError::MissingApiEmail)
            &&& raw.ipv6_addr is Parsed && raw.zone_id is Some && raw.api_email is Some && raw.api_token is None
                ==> r == Err::<Startup, ConfigError>(ConfigError::MissingApiToken)
            &&& raw.ipv6_addr is Parsed && raw.zone_id is Some && raw.api_email is Some && raw.api_token is Some
                ==> (r matches Ok(Startup::Run(c)) && {
                &&& raw.zone_id == Some(c.zone_id)
                &&& raw.ipv6_addr == AddressSetting::Parsed(c.address)
                &&& texts(c.domains@) == listed_domains(raw.fqdns)
                &&& raw.api_email == Some(c.api_email)
                &&& raw.api_token == Some(c.api_token)
                &&& c.command == command_given(raw.command)
            })
        },
{
    if let Some(v) = &raw.skip_dns {
        if flag_is_set(v.as_str()) {
            return Ok(Startup::SkipDns);
        }
    }
    let domains = match &raw.fqdns {
        Some(list) => split_domains(list.as_str()),
        None => Vec::new(),
    };
    assert(texts(domains@) == listed_domains(raw.fqdns));
    if domains.len() == 0 {
        return Ok(Startup::NoDomains);
    }
    let address = match raw.ipv6_addr {
        AddressSetting::Missing => return Err(ConfigError::MissingAddress),
        AddressSetting::Unparsable => return Err(ConfigError::InvalidAddress),
        AddressSetting::Parsed(a) => a,
    };
    let zone_id = match raw.zone_id {
        Some(z) => z,
        None => return Err(ConfigError::MissingZoneId),
    };
    let api_email = match raw.api_email {
        Some(e) => e,
        None => return Err(ConfigError::MissingApiEmail),
    };
    let api_token = match raw.api_token {
        Some(t) => t,
        None => return Err(ConfigError::MissingApiToken),
    };
    let command = match &raw.command {
        Some(t) => parse_command(Some(t.as_str())),
        None => Command::Create,
    };
    Ok(Startup::Run(Config { zone_id, address, domains, api_email, api_token, command }))
}

/// The run that checked settings call for.
pub enum Reconciliation {
    Create(CreateSession),
    Delete(DeleteSession),
    /// The command is not one this library knows: no provider call is made.
    Idle,
}

/// Starts the run that the command of `config` names, over its domains.
pub fn start_reconciliation(config: Config) -> (r: Reconciliation)
    ensures
        config.command == Command::Create ==> (r matches Reconciliation::Create(s) && {
            &&& s.wf()
            &&& s.zone_id() == config.zone_id
            &&& s.address() == config.address
            &&& s.names() == config.domains@
            &&& s.made() == 0
            &&& !s.failed()
        }),
        config.command == Command::Delete ==> (r matches Reconciliation::Delete(s) && {
            &&& s.wf()
            &&& s.zone_id() == config.zone_id
            &&& s.names() == config.domains@
            &&& !s.listed()
            &&& !s.aborted()
            &&& s.made() == 0
        }),
        config.command == Command::Unrecognized ==> r is Idle,
{
    match config.command {
        Command::Create => Reconciliation::Create(CreateSession::new(config.zone_id, config.address, config.domains)),
        Command::Delete => Reconciliation::Delete(DeleteSession::new(config.zone_id, config.domains)),
        Command::Unrecognized => Reconciliation::Idle,
    }
}

} // verus!
