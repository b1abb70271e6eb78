//! Runtime configuration: CLI flags and environment variables take priority
//! over the config file, which takes priority over built-in defaults.

use vstd::prelude::*;
use vstd::string::*;
use vstd::utf8::encode_utf8;
use crate::cli::{LogLevel, RunArgs};

verus! {

/// Heartbeat interval (seconds) used when neither the flags nor the config file give one.
pub const DEFAULT_HEARTBEAT_INTERVAL: u64 = 30;

/// Values that can be set in the TOML config file. Every key is optional.
#[derive(Clone, Debug, PartialEq, Eq)]
pub struct ConfigFile {
    pub relay_url: Option<String>,
    pub device_id: Option<String>,
    pub token: Option<String>,
    pub heartbeat_interval: Option<u64>,
}

impl Default for ConfigFile {
    /// The config of a missing file: no key set.
    fn default() -> (c: Self)
        ensures
            c.relay_url is None,
            c.device_id is None,
            c.token is None,
            c.heartbeat_interval is None,
    {
        ConfigFile { relay_url: None, device_id: None, token: None, heartbeat_interval: None }
    }
}

/// Runtime configuration for the agent.
#[derive(Clone, Debug, PartialEq, Eq)]
pub struct AgentConfig {
    pub relay_url: String,
    pub device_id: String,
    pub hostname: String,
    pub token: Option<String>,
    pub heartbeat_interval: u64,
    pub log_level: String,
    /// Resolved path to the config file (it may not exist on disk), as the
    /// raw bytes of the path.
    pub config_path: Vec<u8>,
}

/// The view of an optional string.
pub open spec fn opt_view(o: Option<String>) -> Option<Seq<char>> {
    match o {
        Some(s) => Some(s@),
        None => None,
    }
}

/// The first of two optional values that is set, else `default`.
pub open spec fn first_set(a: Option<Seq<char>>, b: Option<Seq<char>>, default: Seq<char>) -> Seq<char> {
    match a {
        Some(x) => x,
        None => match b {
            Some(y) => y,
            None => default,
        },
    }
}

/// `c` has the Unicode `White_Space` property, the definition that
/// `char::is_whitespace` and `str::trim` use.
pub open spec fn is_whitespace(c: char) -> bool {
    let n = c as u32;
    ||| 0x9 <= n <= 0xD
    ||| n == 0x20
    ||| n == 0x85
    ||| n == 0xA0
    ||| n == 0x1680
    ||| 0x2000 <= n <= 0x200A
    ||| n == 0x2028
    ||| n == 0x2029
    ||| n == 0x202F
    ||| n == 0x205F
    ||| n == 0x3000
}

/// `s` without its leading and trailing whitespace.
pub open spec fn trim_whitespace(s: Seq<char>) -> Seq<char>
    decreases s.len(),
{
    if s.len() > 0 && is_whitespace(s[0]) {
        trim_whitespace(s.drop_first())
    } else if s.len() > 0 && is_whitespace(s.last()) {
        trim_whitespace(s.drop_last())
    } else {
        s
    }
}

/// Visible ASCII characters (letters, digits, punctuation) are never
/// whitespace; space, tab, line feed and carriage return are.
pub proof fn lemma_whitespace_ascii(c: char)
    ensures
        0x21 <= c as u32 <= 0x7E ==> !is_whitespace(c),
        is_whitespace(' '),
        is_whitespace('\t'),
        is_whitespace('\n'),
        is_whitespace('\r'),
{
}

/// Leading whitespace is dropped.
proof fn lemma_trim_leading(pre: Seq<char>, rest: Seq<char>)
    requires
        forall|k: int| 0 <= k < pre.len() ==> is_whitespace(#[trigger] pre[k]),
    ensures
        trim_whitespace(pre + rest) == trim_whitespace(rest),
    decreases pre.len(),
{
    if pre.len() > 0 {
        let s = pre + rest;
        assert(s[0] == pre[0]);
        assert(s.drop_first() =~= pre.drop_first() + rest);
        lemma_trim_leading(pre.drop_first(), rest);
    } else {
        assert(pre + rest =~= rest);
    }
}

/// A run of whitespace trims to nothing.
proof fn lemma_trim_all_whitespace(post: Seq<char>)
    requires
        forall|k: int| 0 <= k < post.len() ==> is_whitespace(#[trigger] post[k]),
    ensures
        trim_whitespace(post) == Seq::<char>::empty(),
    decreases post.len(),
{
    if post.len() > 0 {
        assert(post[0] == post[0]);
        lemma_trim_all_whitespace(post.drop_first());
    }
}

/// Trailing whitespace is dropped from text that does not start with whitespace.
proof fn lemma_trim_trailing(core: Seq<char>, post: Seq<char>)
    requires
        core.len() > 0,
        !is_whitespace(core[0]),
        forall|k: int| 0 <= k < post.len() ==> is_whitespace(#[trigger] post[k]),
    ensures
        trim_whitespace(core + post) == trim_whitespace(core),
    decreases post.len(),
{
    let s = core + post;
    if post.len() > 0 {
        assert(s[0] == core[0]);
        assert(s.last() == post[post.len() - 1]);
        assert(s.drop_last() =~= core + post.drop_last());
        lemma_trim_trailing(core, post.drop_last());
    } else {
        assert(s =~= core);
    }
}

/// Trimming removes whitespace and nothing else: text that neither starts nor
/// ends with whitespace, surrounded by any amount of whitespace, trims to
/// exactly that text.
pub proof fn lemma_trim_strips_only_whitespace(pre: Seq<char>, core: Seq<char>, post: Seq<char>)
    requires
        forall|k: int| 0 <= k < pre.len() ==> is_whitespace(#[trigger] pre[k]),
        forall|k: int| 0 <= k < post.len() ==> is_whitespace(#[trigger] post[k]),
        core.len() > 0 ==> !is_whitespace(core[0]) && !is_whitespace(core.last()),
    ensures
        trim_whitespace(pre + core + post) == core,
{
    assert(pre + core + post =~= pre + (core + post));
    lemma_trim_leading(pre, core + post);
    if core.len() > 0 {
        lemma_trim_trailing(core, post);
    } else {
        assert(core + post =~= post);
        lemma_trim_all_whitespace(post);
    }
}

/// Whether `c` is whitespace (what `char::is_whitespace` decides).
fn whitespace(c: char) -> (b: bool)
    ensures
        b == is_whitespace(c),
{
    let n = c as u32;
    (0x9 <= n && n <= 0xD) || n == 0x20 || n == 0x85 || n == 0xA0 || n == 0x1680 || (0x2000 <= n
        && n <= 0x200A) || n == 0x2028 || n == 0x2029 || n == 0x202F || n == 0x205F || n == 0x3000
}

/// Trimming a sequence whose first character is not whitespace only strips its end.
proof fn lemma_trim_end(s: Seq<char>)
    requires
        s.len() > 0,
        !is_whitespace(s[0]),
        is_whitespace(s.last()),
    ensures
        trim_whitespace(s) == trim_whitespace(s.drop_last()),
{
}

/// `s` with leading and trailing whitespace removed, as `str::trim` does.
pub fn trim(s: &str) -> (t: &str)
    ensures
        t@ == trim_whitespace(s@),
{
    let len = s.unicode_len();
    let mut i: usize = 0;
    assert(s@.subrange(0, len as int) =~= s@);
    while i < len && whitespace(s.get_char(i))
        invariant
            len == s@.len(),
            i <= len,
            trim_whitespace(s@) == trim_whitespace(s@.subrange(i as int, len as int)),
        decreases len - i,
    {
        let ghost sub = s@.subrange(i as int, len as int);
        assert(sub.drop_first() =~= s@.subrange(i + 1, len as int));
        i = i + 1;
    }
    let mut j: usize = len;
    while j > i && whitespace(s.get_char(j - 1))
        invariant
            len == s@.len(),
            i <= j <= len,
            i < len ==> !is_whitespace(s@[i as int]),
            trim_whitespace(s@) == trim_whitespace(s@.subrange(i as int, j as int)),
        decreases j - i,
    {
        let ghost sub = s@.subrange(i as int, j as int);
        assert(sub[0] == s@[i as int]);
        assert(sub.last() == s@[j - 1]);
        proof {
            lemma_trim_end(sub);
        }
        assert(sub.drop_last() =~= s@.subrange(i as int, j - 1));
        j = j - 1;
    }
    let ghost sub = s@.subrange(i as int, j as int);
    if i < j {
        assert(sub[0] == s@[i as int]);
        assert(sub.last() == s@[j - 1]);
    }
    s.substring_char(i, j)
}

/// The hostname the agent reports: the `HOSTNAME` variable if it is set and
/// non-empty, else the trimmed contents of `/etc/hostname` if non-empty, else
/// `"unknown"`.
pub open spec fn chosen_hostname(env: Option<Seq<char>>, file: Option<Seq<char>>) -> Seq<char> {
    match env {
        Some(e) if e.len() > 0 => e,
        _ => match file {
            Some(f) if trim_whitespace(f).len() > 0 => trim_whitespace(f),
            _ => "unknown"@,
        },
    }
}

/// A hostname file holding a name and a line break gives that name, whenever
/// `HOSTNAME` is unset or empty.
pub proof fn lemma_hostname_from_file_line(env: Option<Seq<char>>, name: Seq<char>)
    requires
        env is None || env.unwrap().len() == 0,
        name.len() > 0,
        !is_whitespace(name[0]),
        !is_whitespace(name.last()),
    ensures
        chosen_hostname(env, Some(name + seq!['\n'])) == name,
{
    let pre = Seq::<char>::empty();
    let post = seq!['\n'];
    lemma_trim_strips_only_whitespace(pre, name, post);
    assert(pre + name + post =~= name + post);
}

/// Picks the hostname from the `HOSTNAME` variable (`env_hostname`) and the
/// contents of `/etc/hostname` (`file_hostname`), `None` where either could not
/// be read.
pub fn resolve_hostname(env_hostname: Option<String>, file_hostname: Option<String>) -> (h: String)
    ensures
        h@ == chosen_hostname(opt_view(env_hostname), opt_view(file_hostname)),
{
    if let Some(e) = env_hostname {
        if !e.as_str().is_empty() {
            return e;
        }
    }
    if let Some(f) = file_hostname {
        let t = trim(f.as_str());
        if !t.is_empty() {
            return t.to_owned();
        }
    }
    "unknown".to_owned()
}

/// `base` with the relative path component `part` pushed onto it, as
/// `PathBuf::push` does on Unix: a separator is added unless `base` is empty
/// or already ends in one.
pub open spec fn joined(base: Seq<char>, part: Seq<char>) -> Seq<char> {
    if base.len() > 0 && base.last() != '/' {
        base + seq!['/'] + part
    } else {
        base + part
    }
}

/// Pushes the relative component `part` onto the path `base`.
pub fn join_path(base: String, part: &str) -> (p: String)
    ensures
        p@ == joined(base@, part@),
{
    let mut p = base;
    let len = p.as_str().unicode_len();
    if len > 0 && p.as_str().get_char(len - 1) != '/' {
        p.append("/");
        proof {
            reveal_strlit("/");
        }
    }
    p.append(part);
    p
}

/// `~/.config/nodevia/agent.toml` for the home directory `home`, or under
/// `/root` where `HOME` is not set.
pub open spec fn spec_default_config_path(home: Option<Seq<char>>) -> Seq<char> {
    let h = match home {
        Some(h) => h,
        None => "/root"@,
    };
    joined(joined(joined(h, ".config"@), "nodevia"@), "agent.toml"@)
}

/// The config file used when `--config` is not given, from the value of
/// the `HOME` variable (`None` where it is not set).
pub fn default_config_path(home: Option<String>) -> (p: String)
    ensures
        p@ == spec_default_config_path(opt_view(home)),
{
    let h = match home {
        Some(h) => h,
        None => "/root".to_owned(),
    };
    join_path(join_path(join_path(h, ".config"), "nodevia"), "agent.toml")
}

/// The config file the agent reads: the `--config` path if given, else
/// `~/.config/nodevia/agent.toml` under `home` (the `HOME` variable, `None`
/// where it is not set), as UTF-8 bytes.
pub open spec fn chosen_config_path(config: Option<Vec<u8>>, home: Option<Seq<char>>) -> Seq<u8> {
    match config {
        Some(p) => p@,
        None => encode_utf8(spec_default_config_path(home)),
    }
}

/// Picks the config file from the `--config` flag and the `HOME` variable.
pub fn choose_config_path(config: &Option<Vec<u8>>, home: Option<String>) -> (p: Vec<u8>)
    ensures
        p@ == chosen_config_path(*config, opt_view(home)),
{
    match config {
        Some(p) => {
            let q = p.clone();
            assert(q@ =~= p@);
            q
        },
        None => default_config_path(home).as_str().as_bytes_vec(),
    }
}

/// Priority: a value given as a flag (or its environment variable) wins
/// whatever the config file holds; only where no flag is given does the file's
/// value apply, and only where neither is set the default.
pub proof fn lemma_flag_beats_file_beats_default(flag: Option<Seq<char>>, file: Option<Seq<char>>, default: Seq<char>)
    ensures
        flag matches Some(x) ==> first_set(flag, file, default) == x,
        flag is None && file is Some ==> first_set(flag, file, default) == file.unwrap(),
        flag is None && file is None ==> first_set(flag, file, default) == default,
{
}

/// The first of two optional strings that is set.
fn either(a: &Option<String>, b: Option<String>) -> (r: Option<String>)
    ensures
        opt_view(r) == (match a {
            Some(x) => Some(x@),
            None => opt_view(b),
        }),
{
    match a {
        Some(x) => Some(x.clone()),
        None => b,
    }
}

impl AgentConfig {
    /// Builds the configuration. Priority: CLI flag or environment variable,
    /// then the config file, then the built-in default (the hostname for the
    /// device id). `hostname` is the resolved hostname, `home` the value of
    /// the `HOME` variable (`None` where it is not set), and `file` the
    /// contents of the config file that `choose_config_path` picks for
    /// `args.config` and `home`.
    pub fn from_args(args: &RunArgs, hostname: String, home: Option<String>, file: ConfigFile) -> (c: AgentConfig)
        ensures
            c.relay_url@ == first_set(opt_view(args.relay_url), opt_view(file.relay_url), "ws://localhost:8080"@),
            c.device_id@ == first_set(opt_view(args.device_id), opt_view(file.device_id), hostname@),
            c.hostname@ == hostname@,
            opt_view(c.token) == (match args.token {
                Some(t) => Some(t@),
                None => opt_view(file.token),
            }),
            c.heartbeat_interval == (match args.heartbeat_interval {
                Some(n) => n,
                None => match file.heartbeat_interval {
                    Some(n) => n,
                    None => DEFAULT_HEARTBEAT_INTERVAL,
                },
            }),
            c.log_level@ == args.log_level.name(),
            c.config_path@ == chosen_config_path(args.config, opt_view(home)),
            args.relay_url matches Some(u) ==> c.relay_url@ == u@,
            args.relay_url is None && file.relay_url is Some ==> c.relay_url@ == file.relay_url.unwrap()@,
            args.relay_url is None && file.relay_url is None ==> c.relay_url@ == "ws://localhost:8080"@,
            args.device_id matches Some(d) ==> c.device_id@ == d@,
            args.device_id is None && file.device_id is Some ==> c.device_id@ == file.device_id.unwrap()@,
            args.device_id is None && file.device_id is None ==> c.device_id@ == hostname@,
            args.token matches Some(t) ==> c.token matches Some(ct) && ct@ == t@,
            args.heartbeat_interval matches Some(n) ==> c.heartbeat_interval == n,
    {
        let config_path = choose_config_path(&args.config, home);
        let relay_url = match either(&args.relay_url, file.relay_url) {
            Some(u) => u,
            None => "ws://localhost:8080".to_owned(),
        };
        let device_id = match either(&args.device_id, file.device_id) {
            Some(d) => d,
            None => hostname.clone(),
        };
        let token = either(&args.token, file.token);
        let heartbeat_interval = match args.heartbeat_interval {
            Some(n) => n,
            None => match file.heartbeat_interval {
                Some(n) => n,
                None => DEFAULT_HEARTBEAT_INTERVAL,
            },
        };
        AgentConfig {
            relay_url,
            device_id,
            hostname,
            token,
            heartbeat_interval,
            log_level: args.log_level.as_str().to_owned(),
            config_path,
        }
    }
}

} // verus!
