//! The pipeline's command-line surface: flags for engine access mode,
//! project name, build context, optional debug-artifact output, remote
//! host/port/credentials, and the remote command.
//!
//! The grammar is flag/value pairs, written `--flag value` or
//! `--flag=value`.  Every flag is
//! required except the debug-output path and the three with defaults
//! (access mode, project name, remote port).  An unknown flag, a flag
//! without a value, a repeated flag, a missing required flag and an
//! unparsable port are each reported as their own error, carrying the
//! offending token.

use vstd::prelude::*;
use vstd::string::StringExecFns;
use vstd::string::StrSliceExecFns;

verus! {

/// The parsed arguments of one run.
pub struct Args {
    /// Engine access method: `unix`, `local` or `http`.
    pub access: String,
    /// Project name; also the image's logical name.
    pub project: String,
    /// Path of the build context directory.
    pub context: String,
    /// Output directory for debug artifacts, if requested.
    pub debug_output: Option<String>,
    /// Remote shell port.
    pub port: u16,
    /// Remote shell host.
    pub host: String,
    /// Remote shell user name.
    pub username: String,
    /// Remote shell password.
    pub password: String,
    /// The command executed on the remote machine.
    pub command: String,
}

/// Mathematical model of [`Args`].
pub struct ArgsModel {
    /// Engine access method.
    pub access: Seq<char>,
    /// Project name.
    pub project: Seq<char>,
    /// Build context path.
    pub context: Seq<char>,
    /// Debug-artifact output path, if requested.
    pub debug_output: Option<Seq<char>>,
    /// Remote shell port.
    pub port: u16,
    /// Remote shell host.
    pub host: Seq<char>,
    /// Remote shell user name.
    pub username: Seq<char>,
    /// Remote shell password.
    pub password: Seq<char>,
    /// The remote command.
    pub command: Seq<char>,
}

impl View for Args {
    type V = ArgsModel;

    open spec fn view(&self) -> ArgsModel {
        ArgsModel {
            access: self.access@,
            project: self.project@,
            context: self.context@,
            debug_output: match self.debug_output {
                Some(s) => Some(s@),
                None => None,
            },
            port: self.port,
            host: self.host@,
            username: self.username@,
            password: self.password@,
            command: self.command@,
        }
    }
}

/// Why parsing failed; the payload is the offending flag or value.
#[derive(Debug)]
pub enum ArgError<S> {
    /// A token where a flag was expected is not a recognized flag.
    UnknownFlag(S),
    /// The final flag has no value after it.
    MissingValue(S),
    /// A flag was given twice.
    DuplicateFlag(S),
    /// A required flag was not given.
    MissingRequired(S),
    /// The port value is not a decimal number a port can hold.
    InvalidPort(S),
}

/// The error as the model sees it.
pub open spec fn arg_error_view(e: ArgError<String>) -> ArgError<Seq<char>> {
    match e {
        ArgError::UnknownFlag(s) => ArgError::UnknownFlag(s@),
        ArgError::MissingValue(s) => ArgError::MissingValue(s@),
        ArgError::DuplicateFlag(s) => ArgError::DuplicateFlag(s@),
        ArgError::MissingRequired(s) => ArgError::MissingRequired(s@),
        ArgError::InvalidPort(s) => ArgError::InvalidPort(s@),
    }
}

/// The recognized flags.
#[derive(Debug, Clone, Copy, PartialEq, Eq, Structural)]
pub enum FlagId {
    /// `--access`
    Access,
    /// `--project`
    Project,
    /// `--context`
    Context,
    /// `--debug-output`
    DebugOutput,
    /// `--port`
    Port,
    /// `--host`
    Host,
    /// `--username`
    Username,
    /// `--password`
    Password,
    /// `--command`
    Command,
}

/// Which flag a token names, if any.
pub open spec fn flag_id_spec(f: Seq<char>) -> Option<FlagId> {
    if f == "--access"@ {
        Some(FlagId::Access)
    } else if f == "--project"@ {
        Some(FlagId::Project)
    } else if f == "--context"@ {
        Some(FlagId::Context)
    } else if f == "--debug-output"@ {
        Some(FlagId::DebugOutput)
    } else if f == "--port"@ {
        Some(FlagId::Port)
    } else if f == "--host"@ {
        Some(FlagId::Host)
    } else if f == "--username"@ {
        Some(FlagId::Username)
    } else if f == "--password"@ {
        Some(FlagId::Password)
    } else if f == "--command"@ {
        Some(FlagId::Command)
    } else {
        None
    }
}

/// The options collected while walking the tokens: each flag's value,
/// once given.
pub struct RawModel {
    /// `--access`, if given.
    pub access: Option<Seq<char>>,
    /// `--project`, if given.
    pub project: Option<Seq<char>>,
    /// `--context`, if given.
    pub context: Option<Seq<char>>,
    /// `--debug-output`, if given.
    pub debug_output: Option<Seq<char>>,
    /// `--port`, if given, still as text.
    pub port: Option<Seq<char>>,
    /// `--host`, if given.
    pub host: Option<Seq<char>>,
    /// `--username`, if given.
    pub username: Option<Seq<char>>,
    /// `--password`, if given.
    pub password: Option<Seq<char>>,
    /// `--command`, if given.
    pub command: Option<Seq<char>>,
}

/// No flag given yet.
pub open spec fn empty_raw() -> RawModel {
    RawModel {
        access: None,
        project: None,
        context: None,
        debug_output: None,
        port: None,
        host: None,
        username: None,
        password: None,
        command: None,
    }
}

/// The value collected for a flag.
pub open spec fn raw_get(r: RawModel, id: FlagId) -> Option<Seq<char>> {
    match id {
        FlagId::Access => r.access,
        FlagId::Project => r.project,
        FlagId::Context => r.context,
        FlagId::DebugOutput => r.debug_output,
        FlagId::Port => r.port,
        FlagId::Host => r.host,
        FlagId::Username => r.username,
        FlagId::Password => r.password,
        FlagId::Command => r.command,
    }
}

/// The collection with one flag's value recorded.
pub open spec fn raw_set(r: RawModel, id: FlagId, v: Seq<char>) -> RawModel {
    match id {
        FlagId::Access => RawModel { access: Some(v), ..r },
        FlagId::Project => RawModel { project: Some(v), ..r },
        FlagId::Context => RawModel { context: Some(v), ..r },
        FlagId::DebugOutput => RawModel { debug_output: Some(v), ..r },
        FlagId::Port => RawModel { port: Some(v), ..r },
        FlagId::Host => RawModel { host: Some(v), ..r },
        FlagId::Username => RawModel { username: Some(v), ..r },
        FlagId::Password => RawModel { password: Some(v), ..r },
        FlagId::Command => RawModel { command: Some(v), ..r },
    }
}

/// A token split at its first `=`: the part before it and the part
/// after it, or `None` when the token holds no `=`.
pub open spec fn eq_split(t: Seq<char>) -> Option<(Seq<char>, Seq<char>)>
    decreases t.len(),
{
    if t.len() == 0 {
        None
    } else if t[0] == '=' {
        Some((Seq::empty(), t.drop_first()))
    } else {
        match eq_split(t.drop_first()) {
            None => None,
            Some(nv) => Some((seq![t[0]] + nv.0, nv.1)),
        }
    }
}

/// Walks the tokens, collecting each flag's value — from the same token
/// after its `=`, or from the following token: an unrecognized flag, a
/// final flag without a value and a repeated flag each stop the walk
/// with their error.
pub open spec fn spec_collect(argv: Seq<Seq<char>>, acc: RawModel) -> Result<
    RawModel,
    ArgError<Seq<char>>,
>
    decreases argv.len(),
{
    if argv.len() == 0 {
        Ok(acc)
    } else {
        let f = argv[0];
        match eq_split(f) {
            Some(nv) => match flag_id_spec(nv.0) {
                None => Err(ArgError::UnknownFlag(f)),
                Some(id) => if raw_get(acc, id) is Some {
                    Err(ArgError::DuplicateFlag(nv.0))
                } else {
                    spec_collect(argv.skip(1), raw_set(acc, id, nv.1))
                },
            },
            None => match flag_id_spec(f) {
                None => Err(ArgError::UnknownFlag(f)),
                Some(id) => if argv.len() == 1 {
                    Err(ArgError::MissingValue(f))
                } else if raw_get(acc, id) is Some {
                    Err(ArgError::DuplicateFlag(f))
                } else {
                    spec_collect(argv.skip(2), raw_set(acc, id, argv[1]))
                },
            },
        }
    }
}

/// A decimal digit.
pub open spec fn is_digit(c: char) -> bool {
    48 <= c as int <= 57
}

/// The value of a digit sequence read in base ten.
pub open spec fn dec_val(s: Seq<char>) -> int
    decreases s.len(),
{
    if s.len() == 0 {
        0
    } else {
        dec_val(s.drop_last()) * 10 + (s.last() as int - 48)
    }
}

/// The port a token denotes: a non-empty, all-digit token whose value a
/// port can hold; anything else is no port.
pub open spec fn parse_port_spec(s: Seq<char>) -> Option<u16> {
    if s.len() > 0 && (forall|i: int| 0 <= i < s.len() ==> is_digit(#[trigger] s[i])) && dec_val(s)
        <= 65535 {
        Some(dec_val(s) as u16)
    } else {
        None
    }
}

/// The defaults applied and the required flags checked, in this order:
/// context, host, username, password, command, then the port value.
pub open spec fn spec_finalize(raw: RawModel) -> Result<ArgsModel, ArgError<Seq<char>>> {
    if raw.context is None {
        Err(ArgError::MissingRequired("--context"@))
    } else if raw.host is None {
        Err(ArgError::MissingRequired("--host"@))
    } else if raw.username is None {
        Err(ArgError::MissingRequired("--username"@))
    } else if raw.password is None {
        Err(ArgError::MissingRequired("--password"@))
    } else if raw.command is None {
        Err(ArgError::MissingRequired("--command"@))
    } else {
        let port = match raw.port {
            None => Some(22u16),
            Some(s) => parse_port_spec(s),
        };
        match port {
            None => Err(ArgError::InvalidPort(raw.port.unwrap())),
            Some(p) => Ok(
                ArgsModel {
                    access: match raw.access {
                        Some(a) => a,
                        None => "unix"@,
                    },
                    project: match raw.project {
                        Some(a) => a,
                        None => "project"@,
                    },
                    context: raw.context.unwrap(),
                    debug_output: raw.debug_output,
                    port: p,
                    host: raw.host.unwrap(),
                    username: raw.username.unwrap(),
                    password: raw.password.unwrap(),
                    command: raw.command.unwrap(),
                },
            ),
        }
    }
}

/// What parsing a token list means.
pub open spec fn spec_parse(argv: Seq<Seq<char>>) -> Result<ArgsModel, ArgError<Seq<char>>> {
    match spec_collect(argv, empty_raw()) {
        Err(e) => Err(e),
        Ok(raw) => spec_finalize(raw),
    }
}

/// The collected options as executable data.
struct RawArgs {
    access: Option<String>,
    project: Option<String>,
    context: Option<String>,
    debug_output: Option<String>,
    port: Option<String>,
    host: Option<String>,
    username: Option<String>,
    password: Option<String>,
    command: Option<String>,
}

impl View for RawArgs {
    type V = RawModel;

    closed spec fn view(&self) -> RawModel {
        RawModel {
            access: opt_str_view(self.access),
            project: opt_str_view(self.project),
            context: opt_str_view(self.context),
            debug_output: opt_str_view(self.debug_output),
            port: opt_str_view(self.port),
            host: opt_str_view(self.host),
            username: opt_str_view(self.username),
            password: opt_str_view(self.password),
            command: opt_str_view(self.command),
        }
    }
}

/// The view of an optional string.
pub open spec fn opt_str_view(s: Option<String>) -> Option<Seq<char>> {
    match s {
        Some(s) => Some(s@),
        None => None,
    }
}

proof fn lemma_eq_split_found(t: Seq<char>, k: int)
    requires
        0 <= k < t.len(),
        t[k] == '=',
        forall|j: int| 0 <= j < k ==> t[j] != '=',
    ensures
        eq_split(t) == Some((t.take(k), t.skip(k + 1))),
    decreases k,
{
    if k == 0 {
        assert(t.take(0) =~= Seq::<char>::empty());
        assert(t.skip(1) =~= t.drop_first());
    } else {
        let rest = t.drop_first();
        assert(rest[k - 1] == '=');
        assert(forall|j: int| 0 <= j < k - 1 ==> rest[j] != '=');
        lemma_eq_split_found(rest, k - 1);
        assert(seq![t[0]] + rest.take(k - 1) =~= t.take(k));
        assert(rest.skip(k) =~= t.skip(k + 1));
    }
}

proof fn lemma_eq_split_none(t: Seq<char>)
    requires
        forall|j: int| 0 <= j < t.len() ==> t[j] != '=',
    ensures
        eq_split(t) is None,
    decreases t.len(),
{
    if t.len() > 0 {
        assert(forall|j: int| 0 <= j < t.drop_first().len() ==> t.drop_first()[j] != '=');
        lemma_eq_split_none(t.drop_first());
    }
}

/// The token split at its first `=`, if it holds one.
fn split_eq(t: &String) -> (r: Option<(String, String)>)
    ensures
        match r {
            Some(p) => eq_split(t@) == Some((p.0@, p.1@)),
            None => eq_split(t@) is None,
        },
{
    let st = t.as_str();
    let n = st.unicode_len();
    let mut i: usize = 0;
    while i < n
        invariant
            st@ == t@,
            i <= n == t@.len(),
            forall|j: int| 0 <= j < i ==> t@[j] != '=',
        decreases n - i,
    {
        if st.get_char(i) == '=' {
            let name = st.substring_char(0, i).to_owned();
            let value = st.substring_char(i + 1, n).to_owned();
            proof {
                lemma_eq_split_found(t@, i as int);
                assert(name@ =~= t@.take(i as int));
                assert(value@ =~= t@.skip(i as int + 1));
            }
            return Some((name, value));
        }
        i = i + 1;
    }
    proof {
        lemma_eq_split_none(t@);
    }
    None
}

/// Which flag a token names, if any.
fn flag_id(f: &String) -> (r: Option<FlagId>)
    ensures
        r == flag_id_spec(f@),
{
    if f.eq(&String::from_str("--access")) {
        Some(FlagId::Access)
    } else if f.eq(&String::from_str("--project")) {
        Some(FlagId::Project)
    } else if f.eq(&String::from_str("--context")) {
        Some(FlagId::Context)
    } else if f.eq(&String::from_str("--debug-output")) {
        Some(FlagId::DebugOutput)
    } else if f.eq(&String::from_str("--port")) {
        Some(FlagId::Port)
    } else if f.eq(&String::from_str("--host")) {
        Some(FlagId::Host)
    } else if f.eq(&String::from_str("--username")) {
        Some(FlagId::Username)
    } else if f.eq(&String::from_str("--password")) {
        Some(FlagId::Password)
    } else if f.eq(&String::from_str("--command")) {
        Some(FlagId::Command)
    } else {
        None
    }
}

/// Whether the flag's value was already collected.
fn raw_has(acc: &RawArgs, id: FlagId) -> (r: bool)
    ensures
        r == (raw_get(acc@, id) is Some),
{
    match id {
        FlagId::Access => acc.access.is_some(),
        FlagId::Project => acc.project.is_some(),
        FlagId::Context => acc.context.is_some(),
        FlagId::DebugOutput => acc.debug_output.is_some(),
        FlagId::Port => acc.port.is_some(),
        FlagId::Host => acc.host.is_some(),
        FlagId::Username => acc.username.is_some(),
        FlagId::Password => acc.password.is_some(),
        FlagId::Command => acc.command.is_some(),
    }
}

/// Records the flag's value.
fn raw_put(acc: &mut RawArgs, id: FlagId, v: String)
    ensures
        final(acc)@ == raw_set(old(acc)@, id, v@),
{
    match id {
        FlagId::Access => {
            acc.access = Some(v);
        },
        FlagId::Project => {
            acc.project = Some(v);
        },
        FlagId::Context => {
            acc.context = Some(v);
        },
        FlagId::DebugOutput => {
            acc.debug_output = Some(v);
        },
        FlagId::Port => {
            acc.port = Some(v);
        },
        FlagId::Host => {
            acc.host = Some(v);
        },
        FlagId::Username => {
            acc.username = Some(v);
        },
        FlagId::Password => {
            acc.password = Some(v);
        },
        FlagId::Command => {
            acc.command = Some(v);
        },
    }
}

/// Reads a port number from its token.
fn parse_port(s: &String) -> (r: Option<u16>)
    ensures
        r == parse_port_spec(s@),
{
    let st = s.as_str();
    let n = st.unicode_len();
    if n == 0 {
        return None;
    }
    let mut val: u32 = 0;
    let mut i: usize = 0;
    while i < n
        invariant
            st@ == s@,
            0 < n == s@.len(),
            i <= n,
            forall|j: int| 0 <= j < i ==> is_digit(#[trigger] s@[j]),
            dec_val(s@.take(i as int)) <= 65535 ==> val == dec_val(s@.take(i as int)),
            dec_val(s@.take(i as int)) > 65535 <==> val > 65535,
            val <= 655359,
        decreases n - i,
    {
        let c = st.get_char(i);
        let d = c as u32;
        if d < 48 || d > 57 {
            proof {
                assert(!is_digit(s@[i as int]));
            }
            return None;
        }
        proof {
            assert(is_digit(s@[i as int]));
        }
        proof {
            assert(s@.take(i + 1).drop_last() =~= s@.take(i as int));
            assert(s@.take(i + 1).last() == s@[i as int]);
        }
        if val <= 65535 {
            val = val * 10 + (d - 48);
        }
        i = i + 1;
    }
    proof {
        assert(s@.take(n as int) =~= s@);
    }
    if val > 65535 {
        None
    } else {
        Some(val as u16)
    }
}

/// Parses the token list (the program's arguments, name excluded),
/// exactly as [`spec_parse`] says: each flag's value collected, the
/// defaults applied, every required flag checked, and the first offence
/// reported as its error.
pub fn parse_args(argv: &Vec<String>) -> (r: Result<Args, ArgError<String>>)
    ensures
        match r {
            Ok(a) => spec_parse(argv.deep_view()) == Ok::<ArgsModel, ArgError<Seq<char>>>(a@),
            Err(e) => spec_parse(argv.deep_view()) == Err::<ArgsModel, ArgError<Seq<char>>>(
                arg_error_view(e),
            ),
        },
{
    let ghost av = argv.deep_view();
    let mut acc = RawArgs {
        access: None,
        project: None,
        context: None,
        debug_output: None,
        port: None,
        host: None,
        username: None,
        password: None,
        command: None,
    };
    let mut i: usize = 0;
    proof {
        assert(av.skip(0) =~= av);
        assert(acc@ == empty_raw());
    }
    while i < argv.len()
        invariant
            i <= av.len(),
            av == argv.deep_view(),
            spec_collect(av, empty_raw()) == spec_collect(av.skip(i as int), acc@),
        decreases av.len() - i,
    {
        let f = &argv[i];
        proof {
            assert(av.skip(i as int)[0] == f@);
            assert(av.skip(i as int).len() == av.len() - i);
        }
        match split_eq(f) {
            Some((name, value)) => {
                match flag_id(&name) {
                    None => {
                        return Err(ArgError::UnknownFlag(f.clone()));
                    },
                    Some(id) => {
                        if raw_has(&acc, id) {
                            return Err(ArgError::DuplicateFlag(name));
                        }
                        proof {
                            assert(av.skip(i as int).skip(1) =~= av.skip(i + 1));
                        }
                        raw_put(&mut acc, id, value);
                        i = i + 1;
                    },
                }
            },
            None => match flag_id(f) {
                None => {
                    return Err(ArgError::UnknownFlag(f.clone()));
                },
                Some(id) => {
                    if i + 1 >= argv.len() {
                        return Err(ArgError::MissingValue(f.clone()));
                    }
                    if raw_has(&acc, id) {
                        return Err(ArgError::DuplicateFlag(f.clone()));
                    }
                    let v = argv[i + 1].clone();
                    proof {
                        assert(av.skip(i as int)[1] == av[i + 1]);
                        assert(v@ == av[i + 1]);
                        assert(av.skip(i as int).skip(2) =~= av.skip(i + 2));
                    }
                    raw_put(&mut acc, id, v);
                    i = i + 2;
                },
            },
        }
    }
    proof {
        assert(av.skip(av.len() as int) =~= Seq::<Seq<char>>::empty());
        assert(spec_collect(av, empty_raw()) == Ok::<RawModel, ArgError<Seq<char>>>(acc@));
    }
    // required flags, checked in a fixed order
    if acc.context.is_none() {
        return Err(ArgError::MissingRequired(String::from_str("--context")));
    }
    if acc.host.is_none() {
        return Err(ArgError::MissingRequired(String::from_str("--host")));
    }
    if acc.username.is_none() {
        return Err(ArgError::MissingRequired(String::from_str("--username")));
    }
    if acc.password.is_none() {
        return Err(ArgError::MissingRequired(String::from_str("--password")));
    }
    if acc.command.is_none() {
        return Err(ArgError::MissingRequired(String::from_str("--command")));
    }
    let port: u16 = match &acc.port {
        None => 22,
        Some(s) => match parse_port(s) {
            Some(p) => p,
            None => {
                return Err(ArgError::InvalidPort(s.clone()));
            },
        },
    };
    let access = match acc.access {
        Some(a) => a,
        None => String::from_str("unix"),
    };
    let project = match acc.project {
        Some(a) => a,
        None => String::from_str("project"),
    };
    Ok(
        Args {
            access,
            project,
            context: acc.context.unwrap(),
            debug_output: acc.debug_output,
            port,
            host: acc.host.unwrap(),
            username: acc.username.unwrap(),
            password: acc.password.unwrap(),
            command: acc.command.unwrap(),
        },
    )
}

} // verus!
