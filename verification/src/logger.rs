//! Configuration of the plugin's terminal logger.
//!
//! The logger is set up once per process. Messages are shown from the
//! debug level when debugging, from the info level otherwise, and only
//! those of this crate unless messages of other crates are wanted.
use vstd::prelude::*;
use vstd::string::*;

verus! {

/// Verbosity threshold of the logger.
#[derive(PartialEq, Eq, Structural, Clone, Copy, Debug)]
pub enum LogLevel {
    /// Everything, down to tracing messages.
    Trace,
    /// Debugging messages and above.
    Debug,
    /// Informational messages and above.
    Info,
}

/// How the terminal logger is to be built.
pub struct LoggerConfig {
    /// Least severe level that is shown.
    pub level: LogLevel,
    /// Level from which the message's target is shown.
    pub target_level: LogLevel,
    /// Level from which the message's thread is shown.
    pub thread_level: LogLevel,
    /// Where present, only messages whose target starts with this module
    /// path are shown.
    pub allowed_target: Option<String>,
}

/// How far the one-time set-up of the logger has come.
#[derive(PartialEq, Eq, Structural, Clone, Copy, Debug)]
pub enum LoggerPhase {
    /// `initialize` has not run yet.
    Unset,
    /// `initialize` has run; its configuration was handed out once.
    Started,
    /// Installing the configuration that `initialize` handed out failed;
    /// the set-up can never run again, and asking for it is an error.
    Poisoned,
}

/// Whether the logger of this process has been set up.
#[derive(PartialEq, Eq, Structural, Clone, Copy, Debug)]
pub struct LoggerOnce {
    /// How far the set-up has come.
    pub phase: LoggerPhase,
}

/// The module path under which a package's messages are logged: its name
/// with every `-` written as `_`.
pub open spec fn target_name_of(package_name: Seq<char>) -> Seq<char> {
    package_name.map_values(|c: char| if c == '-' { '_' } else { c })
}

/// The verbosity threshold: debug when debugging, info otherwise.
pub open spec fn level_for(debug: bool) -> LogLevel {
    if debug {
        LogLevel::Debug
    } else {
        LogLevel::Info
    }
}

/// Whether `initialize` hands out a configuration in state `once`: only
/// the first time.
pub open spec fn hands_out_config(once: LoggerOnce) -> bool {
    once.phase == LoggerPhase::Unset
}

/// Returns the module path of package `package_name`: every `-` of the
/// name becomes `_`.
pub fn crate_target_name(package_name: &str) -> (name: String)
    ensures
        name@ == target_name_of(package_name@),
{
    let len: usize = package_name.unicode_len();
    let mut name = String::new();
    proof {
        reveal_strlit("_");
    }
    let mut i: usize = 0;
    while i < len
        invariant
            i <= len,
            len == package_name@.len(),
            name@ == target_name_of(package_name@.subrange(0, i as int)),
            "_"@ == seq!['_'],
        decreases len - i,
    {
        let c: char = package_name.get_char(i);
        let ghost before = name@;
        if c == '-' {
            name.append("_");
        } else {
            let piece = package_name.substring_char(i, i + 1);
            name.append(piece);
            assert(piece@ =~= seq![c]);
        }
        assert(package_name@.subrange(0, i + 1) =~= package_name@.subrange(0, i as int).push(c));
        assert(name@ =~= target_name_of(package_name@.subrange(0, i + 1)));
        i = i + 1;
    }
    assert(package_name@.subrange(0, len as int) =~= package_name@);
    name
}

/// The logger configuration: level per `debug`, targets and threads shown
/// for every message, and, unless `other_crates`, only messages of
/// package `package_name`.
pub fn logger_config(debug: bool, other_crates: bool, package_name: &str) -> (config: LoggerConfig)
    ensures
        config.level == level_for(debug),
        config.target_level == LogLevel::Trace,
        config.thread_level == LogLevel::Trace,
        config.allowed_target is Some <==> !other_crates,
        config.allowed_target matches Some(target) ==> target@ == target_name_of(package_name@),
{
    let level = if debug {
        LogLevel::Debug
    } else {
        LogLevel::Info
    };
    let my_crate_name = crate_target_name(package_name);
    let allowed_target = if !other_crates {
        Some(my_crate_name)
    } else {
        None
    };
    LoggerConfig {
        level,
        target_level: LogLevel::Trace,
        thread_level: LogLevel::Trace,
        allowed_target,
    }
}

impl LoggerOnce {
    /// No logger set up yet.
    pub fn new() -> (once: Self)
        ensures
            once.phase == LoggerPhase::Unset,
    {
        LoggerOnce { phase: LoggerPhase::Unset }
    }

    /// Records that installing the configuration handed out by the first
    /// `initialize` failed: the set-up is poisoned for good.
    pub fn install_failed(&mut self)
        requires
            old(self).phase == LoggerPhase::Started,
        ensures
            final(self).phase == LoggerPhase::Poisoned,
    {
        self.phase = LoggerPhase::Poisoned;
    }
}

/// Sets up the logger on the first call only: returns the configuration to
/// install the first time, and `None` on every later call. A set-up whose
/// install failed cannot be asked for again.
pub fn initialize(once: &mut LoggerOnce, debug: bool, other_crates: bool, package_name: &str) -> (config:
    Option<LoggerConfig>)
    requires
        old(once).phase != LoggerPhase::Poisoned,
    ensures
        final(once).phase == LoggerPhase::Started,
        config is Some <==> hands_out_config(*old(once)),
        config matches Some(c) ==> {
            &&& c.level == level_for(debug)
            &&& c.target_level == LogLevel::Trace
            &&& c.thread_level == LogLevel::Trace
            &&& (c.allowed_target is Some <==> !other_crates)
            &&& (c.allowed_target matches Some(target) ==> target@ == target_name_of(package_name@))
        },
{
    match once.phase {
        LoggerPhase::Unset => {},
        _ => {
            return None;
        },
    }
    once.phase = LoggerPhase::Started;
    Some(logger_config(debug, other_crates, package_name))
}

/// A target name holds no `-`, and has one character per character of
/// the package name.
pub proof fn lemma_target_name_has_no_dash(package_name: Seq<char>)
    ensures
        target_name_of(package_name).len() == package_name.len(),
        !target_name_of(package_name).contains('-'),
{
    let t = target_name_of(package_name);
    assert forall|i: int| 0 <= i < t.len() implies t[i] != '-' by {}
}

/// Writing the dashes of a target name as underscores changes nothing: the
/// mapping is idempotent.
pub proof fn lemma_target_name_idempotent(package_name: Seq<char>)
    ensures
        target_name_of(target_name_of(package_name)) == target_name_of(package_name),
{
    assert(target_name_of(target_name_of(package_name)) =~= target_name_of(package_name));
}

/// The logger is set up at most once: `initialize` leaves the phase
/// `Started`, in which no later call hands out a configuration, nor does
/// one after a failed install.
pub proof fn lemma_initialize_at_most_once(once: LoggerOnce)
    requires
        once.phase == LoggerPhase::Started || once.phase == LoggerPhase::Poisoned,
    ensures
        !hands_out_config(once),
{
}

/// The target name keeps every character of the package name but `-`,
/// which becomes `_`, position by position.
pub proof fn lemma_target_name_keeps_other_chars(package_name: Seq<char>)
    ensures
        target_name_of(package_name).len() == package_name.len(),
        forall|i: int|
            0 <= i < package_name.len() ==> #[trigger] target_name_of(package_name)[i] == if package_name[i]
                == '-' {
                '_'
            } else {
                package_name[i]
            },
{
}

/// Debugging shows messages from the debug level, otherwise from the info
/// level.
pub proof fn lemma_level_follows_debug()
    ensures
        level_for(true) == LogLevel::Debug,
        level_for(false) == LogLevel::Info,
{
}

} // verus!
