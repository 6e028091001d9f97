//! Layered configuration: command line over config file over computed
//! defaults, then validation into an immutable [`Config`].

use vstd::prelude::*;
use crate::duration::{duration_secs, parse_duration_secs};
use crate::endpoint::{endpoint_of, parse_endpoint, Endpoint};
use crate::error::{ProgramError, ProgramResult, Setting};
use crate::settings_file::{
    ini_entries, ini_get, ini_set, ini_text, is_plain_name, is_plain_value, is_writable, new_ini,
    parsed_ini, read_ini, stored_value, Entries,
};
use configparser::ini::Ini;

verus! {

/// The destination when no layer names one.
pub open spec fn default_destination() -> Seq<char> {
    "110.232.115.0:21000"@
}

/// The minimum interval when no layer names one.
pub open spec fn default_min_interval() -> Seq<char> {
    seq!['5', 'm']
}

/// The maximum interval when no layer names one.
pub open spec fn default_max_interval() -> Seq<char> {
    seq!['9', 'm']
}

pub open spec fn opt_view(o: Option<String>) -> Option<Seq<char>> {
    match o {
        Some(s) => Some(s@),
        None => None,
    }
}

/// `first` where it is set, else `second`.
pub open spec fn fill(first: Option<Seq<char>>, second: Option<Seq<char>>) -> Option<Seq<char>> {
    if first is Some {
        first
    } else {
        second
    }
}

/// What the command line gave.
#[derive(Clone, Debug)]
pub struct CliArgs {
    pub help: bool,
    pub now: bool,
    pub config: Option<String>,
    pub stats_destination: Option<String>,
    pub interface_name: Option<String>,
    pub min_interval: Option<String>,
    pub max_interval: Option<String>,
    pub root_path: Option<String>,
}

pub struct CliView {
    pub help: bool,
    pub now: bool,
    pub config: Option<Seq<char>>,
    pub stats_destination: Option<Seq<char>>,
    pub interface_name: Option<Seq<char>>,
    pub min_interval: Option<Seq<char>>,
    pub max_interval: Option<Seq<char>>,
    pub root_path: Option<Seq<char>>,
}

impl View for CliArgs {
    type V = CliView;

    open spec fn view(&self) -> CliView {
        CliView {
            help: self.help,
            now: self.now,
            config: opt_view(self.config),
            stats_destination: opt_view(self.stats_destination),
            interface_name: opt_view(self.interface_name),
            min_interval: opt_view(self.min_interval),
            max_interval: opt_view(self.max_interval),
            root_path: opt_view(self.root_path),
        }
    }
}

/// What a config file gave.
#[derive(Clone, Debug)]
pub struct FileSettings {
    pub stats_destination: Option<String>,
    pub interface_name: Option<String>,
    pub min_interval: Option<String>,
    pub max_interval: Option<String>,
    pub root_path: Option<String>,
}

pub struct FileView {
    pub stats_destination: Option<Seq<char>>,
    pub interface_name: Option<Seq<char>>,
    pub min_interval: Option<Seq<char>>,
    pub max_interval: Option<Seq<char>>,
    pub root_path: Option<Seq<char>>,
}

impl View for FileSettings {
    type V = FileView;

    open spec fn view(&self) -> FileView {
        FileView {
            stats_destination: opt_view(self.stats_destination),
            interface_name: opt_view(self.interface_name),
            min_interval: opt_view(self.min_interval),
            max_interval: opt_view(self.max_interval),
            root_path: opt_view(self.root_path),
        }
    }
}

/// The settings gathered so far, every one of them optional.
pub struct ConfigBuilder {
    pub stats_destination: Option<String>,
    pub interface_name: Option<String>,
    pub min_interval: Option<String>,
    pub max_interval: Option<String>,
    pub root_path: Option<String>,
    /// The config file to read; never part of a [`Config`].
    pub config: Option<String>,
    pub send_now: bool,
}

pub struct RawSettings {
    pub stats_destination: Option<Seq<char>>,
    pub interface_name: Option<Seq<char>>,
    pub min_interval: Option<Seq<char>>,
    pub max_interval: Option<Seq<char>>,
    pub root_path: Option<Seq<char>>,
    pub config: Option<Seq<char>>,
    pub send_now: bool,
}

impl View for ConfigBuilder {
    type V = RawSettings;

    open spec fn view(&self) -> RawSettings {
        RawSettings {
            stats_destination: opt_view(self.stats_destination),
            interface_name: opt_view(self.interface_name),
            min_interval: opt_view(self.min_interval),
            max_interval: opt_view(self.max_interval),
            root_path: opt_view(self.root_path),
            config: opt_view(self.config),
            send_now: self.send_now,
        }
    }
}

/// The validated settings of the agent.
pub struct Config {
    pub stats_destination: Endpoint,
    pub interface_name: Option<String>,
    pub min_interval: u64,
    pub max_interval: u64,
    pub root_path: String,
    pub send_now: bool,
}

pub struct ConfigView {
    pub stats_destination: Endpoint,
    pub interface_name: Option<Seq<char>>,
    pub min_interval: u64,
    pub max_interval: u64,
    pub root_path: Seq<char>,
    pub send_now: bool,
}

impl View for Config {
    type V = ConfigView;

    open spec fn view(&self) -> ConfigView {
        ConfigView {
            stats_destination: self.stats_destination,
            interface_name: opt_view(self.interface_name),
            min_interval: self.min_interval,
            max_interval: self.max_interval,
            root_path: self.root_path@,
            send_now: self.send_now,
        }
    }
}

impl Config {
    /// The bounds of the sleep interval are in order.
    pub open spec fn wf(&self) -> bool {
        self.min_interval <= self.max_interval
    }
}

impl RawSettings {
    /// The command line sets every field that it names.
    pub open spec fn with_cli(self, cli: CliView) -> RawSettings {
        RawSettings {
            stats_destination: fill(cli.stats_destination, self.stats_destination),
            interface_name: fill(cli.interface_name, self.interface_name),
            min_interval: fill(cli.min_interval, self.min_interval),
            max_interval: fill(cli.max_interval, self.max_interval),
            root_path: fill(cli.root_path, self.root_path),
            config: fill(cli.config, self.config),
            send_now: self.send_now || cli.now,
        }
    }

    /// A config file fills only what is still unset.
    pub open spec fn with_file(self, f: FileView) -> RawSettings {
        RawSettings {
            stats_destination: fill(self.stats_destination, f.stats_destination),
            interface_name: fill(self.interface_name, f.interface_name),
            min_interval: fill(self.min_interval, f.min_interval),
            max_interval: fill(self.max_interval, f.max_interval),
            root_path: fill(self.root_path, f.root_path),
            ..self
        }
    }

    /// The computed defaults fill what is still unset.
    pub open spec fn with_defaults(
        self,
        first_interface: Option<Seq<char>>,
        first_mount: Option<Seq<char>>,
    ) -> RawSettings {
        RawSettings {
            stats_destination: fill(self.stats_destination, Some(default_destination())),
            interface_name: fill(self.interface_name, first_interface),
            min_interval: fill(self.min_interval, Some(default_min_interval())),
            max_interval: fill(self.max_interval, Some(default_max_interval())),
            root_path: fill(self.root_path, first_mount),
            ..self
        }
    }

    /// The seconds of an interval setting, or the error that it gives.
    pub open spec fn interval(v: Option<Seq<char>>, which: Setting) -> Result<u64, ProgramError> {
        match v {
            None => Err(ProgramError::MissingValueError(which)),
            Some(s) => match duration_secs(s) {
                Some(n) => Ok(n),
                None => Err(ProgramError::InvalidValueError(which)),
            },
        }
    }

    /// The validated settings, or the first error among: the minimum
    /// interval, the maximum interval, their order, the destination, the
    /// root path.
    pub open spec fn built(self) -> Result<ConfigView, ProgramError> {
        match RawSettings::interval(self.min_interval, Setting::MinInterval) {
            Err(e) => Err(e),
            Ok(min) => match RawSettings::interval(self.max_interval, Setting::MaxInterval) {
                Err(e) => Err(e),
                Ok(max) => if min > max {
                    Err(ProgramError::MinGreaterThanMaxDurationError(min, max))
                } else {
                    match self.stats_destination {
                        None => Err(ProgramError::MissingValueError(Setting::StatsDestination)),
                        Some(s) => match endpoint_of(s) {
                        None => Err(ProgramError::InvalidValueError(Setting::StatsDestination)),
                        Some(d) => match self.root_path {
                            None => Err(ProgramError::MissingValueError(Setting::RootPath)),
                            Some(root) => Ok(
                                ConfigView {
                                    stats_destination: d,
                                    interface_name: self.interface_name,
                                    min_interval: min,
                                    max_interval: max,
                                    root_path: root,
                                    send_now: self.send_now,
                                },
                            ),
                        },
                        },
                    }
                },
            },
        }
    }
}

/// The entries under which a config file stores the settings `f`.
pub open spec fn settings_entries(f: FileView) -> Entries {
    Entries::empty().insert(("default"@, "stats-destination"@), f.stats_destination).insert(
        ("default"@, "interface-name"@),
        f.interface_name,
    ).insert(("default"@, "min-interval"@), f.min_interval).insert(
        ("default"@, "max-interval"@),
        f.max_interval,
    ).insert(("default"@, "root-path"@), f.root_path)
}

pub open spec fn opt_plain(v: Option<Seq<char>>) -> bool {
    v matches Some(t) ==> is_plain_value(t)
}

impl FileView {
    /// Every setting is unset or a plain value.
    pub open spec fn is_plain(self) -> bool {
        &&& opt_plain(self.stats_destination)
        &&& opt_plain(self.interface_name)
        &&& opt_plain(self.min_interval)
        &&& opt_plain(self.max_interval)
        &&& opt_plain(self.root_path)
    }
}

impl RawSettings {
    /// The settings that a config file holds.
    pub open spec fn file_part(self) -> FileView {
        FileView {
            stats_destination: self.stats_destination,
            interface_name: self.interface_name,
            min_interval: self.min_interval,
            max_interval: self.max_interval,
            root_path: self.root_path,
        }
    }
}

/// What a settings file with the entries `m` gives.
pub open spec fn file_view(m: Entries) -> FileView {
    FileView {
        stats_destination: stored_value(m, "default"@, "stats-destination"@),
        interface_name: stored_value(m, "default"@, "interface-name"@),
        min_interval: stored_value(m, "default"@, "min-interval"@),
        max_interval: stored_value(m, "default"@, "max-interval"@),
        root_path: stored_value(m, "default"@, "root-path"@),
    }
}

/// The settings after the config file layer: unchanged where no file is
/// named or the named file does not exist (`text` is `None`), else filled
/// from the file, or the error of a file that cannot be read as settings.
pub open spec fn after_file(raw: RawSettings, text: Option<Seq<char>>) -> Result<
    RawSettings,
    ProgramError,
> {
    match (raw.config, text) {
        (Some(_), Some(t)) => match parsed_ini(t) {
            Some(m) => Ok(raw.with_file(file_view(m))),
            None => Err(ProgramError::InvalidValueError(Setting::ConfigFile)),
        },
        _ => Ok(raw),
    }
}

/// The whole resolution: `None` where the command line asks for help, else
/// the validated settings from the command line, then the config file, then
/// the computed defaults.
pub open spec fn resolution(
    cli: CliArgs,
    text: Option<Seq<char>>,
    first_interface: Option<Seq<char>>,
    first_mount: Option<Seq<char>>,
) -> Result<Option<ConfigView>, ProgramError> {
    if cli.help {
        Ok(None)
    } else {
        let raw = ConfigBuilder::spec_new()@.with_cli(cli@);
        match after_file(raw, text) {
            Err(e) => Err(e),
            Ok(filled) => match filled.with_defaults(first_interface, first_mount).built() {
                Ok(c) => Ok(Some(c)),
                Err(e) => Err(e),
            },
        }
    }
}

pub open spec fn opt_config_view(o: Option<Config>) -> Option<ConfigView> {
    match o {
        Some(c) => Some(c@),
        None => None,
    }
}

/// Resolves the agent's settings from the command line, the contents of the
/// config file that it names (`None` where no such file exists), and the
/// first network interface and mount point that the system reports. `None`
/// where the command line asks for help.
pub fn resolve(
    cli: CliArgs,
    file_text: Option<String>,
    first_interface: Option<String>,
    first_mount: Option<String>,
) -> (r: ProgramResult<Option<Config>>)
    ensures
        match r {
            ProgramResult::Done(o) => resolution(
                cli,
                opt_view(file_text),
                opt_view(first_interface),
                opt_view(first_mount),
            ) == Ok::<Option<ConfigView>, ProgramError>(opt_config_view(o)),
            ProgramResult::Failed(e) => resolution(
                cli,
                opt_view(file_text),
                opt_view(first_interface),
                opt_view(first_mount),
            ) == Err::<Option<ConfigView>, ProgramError>(e),
        },
        r matches ProgramResult::Done(Some(c)) ==> c.wf(),
{
    let ghost c = cli;
    let builder = match ConfigBuilder::new().apply_cli(cli) {
        None => return ProgramResult::Done(None),
        Some(b) => b,
    };
    assert(builder@ == ConfigBuilder::spec_new()@.with_cli(c@));
    let filled = match builder.parse_config(file_text) {
        ProgramResult::Done(b) => b,
        ProgramResult::Failed(e) => return ProgramResult::Failed(e),
    };
    match filled.set_defaults(first_interface, first_mount).build() {
        ProgramResult::Done(config) => ProgramResult::Done(Some(config)),
        ProgramResult::Failed(e) => ProgramResult::Failed(e),
    }
}

/// Reads the setting stored under `key` in the flat section.
fn file_value(ini: &Ini, key: &str) -> (r: Option<String>)
    requires
        is_plain_name(key@),
    ensures
        opt_view(r) == stored_value(ini_entries(*ini), "default"@, key@),
{
    let section = "default";
    proof {
        reveal_strlit("default");
    }
    ini_get(ini, section, key)
}

impl ConfigBuilder {
    pub open spec fn spec_new() -> ConfigBuilder {
        ConfigBuilder {
            stats_destination: None,
            interface_name: None,
            min_interval: None,
            max_interval: None,
            root_path: None,
            config: None,
            send_now: false,
        }
    }

    /// Fills the fields that are still unset from the contents of the named
    /// config file; `contents` is `None` where no such file exists.
    pub fn parse_config(self, contents: Option<String>) -> (r: ProgramResult<ConfigBuilder>)
        ensures
            match r {
                ProgramResult::Done(b) => after_file(self@, opt_view(contents)) == Ok::<
                    RawSettings,
                    ProgramError,
                >(b@),
                ProgramResult::Failed(e) => after_file(self@, opt_view(contents)) == Err::<
                    RawSettings,
                    ProgramError,
                >(e),
            },
    {
        if self.config.is_none() {
            return ProgramResult::Done(self);
        }
        let text = match contents {
            Some(t) => t,
            None => return ProgramResult::Done(self),
        };
        let ini = match read_ini(text) {
            Some(ini) => ini,
            None => return ProgramResult::Failed(ProgramError::InvalidValueError(Setting::ConfigFile)),
        };
        proof {
            reveal_strlit("stats-destination");
            reveal_strlit("interface-name");
            reveal_strlit("min-interval");
            reveal_strlit("max-interval");
            reveal_strlit("root-path");
        }
        let file = FileSettings {
            stats_destination: file_value(&ini, "stats-destination"),
            interface_name: file_value(&ini, "interface-name"),
            min_interval: file_value(&ini, "min-interval"),
            max_interval: file_value(&ini, "max-interval"),
            root_path: file_value(&ini, "root-path"),
        };
        ProgramResult::Done(self.fill_from_file(file))
    }

    /// A store of the settings gathered so far, under the keys that a config
    /// file uses.
    pub fn bootstrap_ini(&self) -> (r: Ini)
        ensures
            ini_entries(r) == settings_entries(self@.file_part()),
            file_view(ini_entries(r)) == (FileView {
                stats_destination: self@.stats_destination,
                interface_name: self@.interface_name,
                min_interval: self@.min_interval,
                max_interval: self@.max_interval,
                root_path: self@.root_path,
            }),
    {
        let mut ini = new_ini();
        let section = "default";
        proof {
            reveal_strlit("default");
            reveal_strlit("stats-destination");
            reveal_strlit("interface-name");
            reveal_strlit("min-interval");
            reveal_strlit("max-interval");
            reveal_strlit("root-path");
        }
        ini_set(&mut ini, section, "stats-destination", copy_opt(&self.stats_destination));
        ini_set(&mut ini, section, "interface-name", copy_opt(&self.interface_name));
        ini_set(&mut ini, section, "min-interval", copy_opt(&self.min_interval));
        ini_set(&mut ini, section, "max-interval", copy_opt(&self.max_interval));
        ini_set(&mut ini, section, "root-path", copy_opt(&self.root_path));
        proof {
            // The five keys differ in length, but for the two intervals.
            assert("stats-destination"@.len() == 17);
            assert("interface-name"@.len() == 14);
            assert("min-interval"@.len() == 12 && "max-interval"@.len() == 12);
            assert("root-path"@.len() == 9);
            assert("min-interval"@[1] != "max-interval"@[1]);
        }
        ini
    }

    /// The text of a config file that holds the settings gathered so far.
    ///
    /// Where every setting is unset or a plain value, reading the text back
    /// gives exactly these settings.
    pub fn bootstrap_text(&self) -> (r: String)
        ensures
            self@.file_part().is_plain() ==> parsed_ini(r@) == Some(
                settings_entries(self@.file_part()),
            ),
            file_view(settings_entries(self@.file_part())) == self@.file_part(),
    {
        let ini = self.bootstrap_ini();
        proof {
            reveal_strlit("default");
            reveal_strlit("stats-destination");
            reveal_strlit("interface-name");
            reveal_strlit("min-interval");
            reveal_strlit("max-interval");
            reveal_strlit("root-path");
            let f = self@.file_part();
            let m = settings_entries(f);
            if f.is_plain() {
                assert forall|k: (Seq<char>, Seq<char>)| #[trigger] m.contains_key(k) implies k.0
                    == "default"@ && k.1.len() > 0 && is_plain_name(k.1) && (m[k] matches Some(
                    v,
                ) ==> is_plain_value(v)) by {}
            }
        }
        ini_text(&ini)
    }

    /// A builder with nothing set.
    pub fn new() -> (r: ConfigBuilder)
        ensures
            r.stats_destination is None,
            r.interface_name is None,
            r.min_interval is None,
            r.max_interval is None,
            r.root_path is None,
            r.config is None,
            !r.send_now,
    {
        ConfigBuilder {
            stats_destination: None,
            interface_name: None,
            min_interval: None,
            max_interval: None,
            root_path: None,
            config: None,
            send_now: false,
        }
    }

    /// Takes the command line in: `None` where it asks for help, else the
    /// builder with every field that the command line names set from it.
    pub fn apply_cli(self, cli: CliArgs) -> (r: Option<ConfigBuilder>)
        ensures
            cli.help <==> r is None,
            r matches Some(b) ==> b@ == self@.with_cli(cli@),
    {
        if cli.help {
            return None;
        }
        Some(
            ConfigBuilder {
                stats_destination: or_else(cli.stats_destination, self.stats_destination),
                interface_name: or_else(cli.interface_name, self.interface_name),
                min_interval: or_else(cli.min_interval, self.min_interval),
                max_interval: or_else(cli.max_interval, self.max_interval),
                root_path: or_else(cli.root_path, self.root_path),
                config: or_else(cli.config, self.config),
                send_now: self.send_now || cli.now,
            },
        )
    }

    /// Fills the fields that are still unset from a config file.
    pub fn fill_from_file(self, file: FileSettings) -> (r: ConfigBuilder)
        ensures
            r@ == self@.with_file(file@),
    {
        ConfigBuilder {
            stats_destination: or_else(self.stats_destination, file.stats_destination),
            interface_name: or_else(self.interface_name, file.interface_name),
            min_interval: or_else(self.min_interval, file.min_interval),
            max_interval: or_else(self.max_interval, file.max_interval),
            root_path: or_else(self.root_path, file.root_path),
            config: self.config,
            send_now: self.send_now,
        }
    }

    /// Fills the fields that are still unset from the computed defaults:
    /// the first network interface and the first mount point that the
    /// system reports, and the default intervals.
    pub fn set_defaults(self, first_interface: Option<String>, first_mount: Option<String>) -> (r:
        ConfigBuilder)
        ensures
            r@ == self@.with_defaults(opt_view(first_interface), opt_view(first_mount)),
    {
        let dest_default = String::from_str("110.232.115.0:21000");
        let min_default = String::from_str("5m");
        let max_default = String::from_str("9m");
        proof {
            reveal_strlit("5m");
            reveal_strlit("9m");
            assert(min_default@ =~= default_min_interval());
            assert(max_default@ =~= default_max_interval());
        }
        ConfigBuilder {
            stats_destination: or_else(self.stats_destination, Some(dest_default)),
            interface_name: or_else(self.interface_name, first_interface),
            min_interval: or_else(self.min_interval, Some(min_default)),
            max_interval: or_else(self.max_interval, Some(max_default)),
            root_path: or_else(self.root_path, first_mount),
            config: self.config,
            send_now: self.send_now,
        }
    }

    /// Validates the settings into a [`Config`].
    pub fn build(self) -> (r: ProgramResult<Config>)
        ensures
            match r {
                ProgramResult::Done(c) => self@.built() == Ok::<ConfigView, ProgramError>(c@),
                ProgramResult::Failed(e) => self@.built() == Err::<ConfigView, ProgramError>(e),
            },
            r matches ProgramResult::Done(c) ==> c.wf(),
    {
        let min = match interval_secs(&self.min_interval, Setting::MinInterval) {
            Ok(n) => n,
            Err(e) => return ProgramResult::Failed(e),
        };
        let max = match interval_secs(&self.max_interval, Setting::MaxInterval) {
            Ok(n) => n,
            Err(e) => return ProgramResult::Failed(e),
        };
        if min > max {
            return ProgramResult::Failed(ProgramError::MinGreaterThanMaxDurationError(min, max));
        }
        let dest = match &self.stats_destination {
            None => return ProgramResult::Failed(
                ProgramError::MissingValueError(Setting::StatsDestination),
            ),
            Some(s) => parse_endpoint(s.as_str()),
        };
        let stats_destination = match dest {
            Some(d) => d,
            None => return ProgramResult::Failed(
                ProgramError::InvalidValueError(Setting::StatsDestination),
            ),
        };
        let root_path = match self.root_path {
            Some(root) => root,
            None => return ProgramResult::Failed(ProgramError::MissingValueError(Setting::RootPath)),
        };
        ProgramResult::Done(
            Config {
                stats_destination,
                interface_name: self.interface_name,
                min_interval: min,
                max_interval: max,
                root_path,
                send_now: self.send_now,
            },
        )
    }
}

fn copy_opt(o: &Option<String>) -> (r: Option<String>)
    ensures
        opt_view(r) == opt_view(*o),
{
    match o {
        Some(s) => Some(s.clone()),
        None => None,
    }
}

/// `first` where it is set, else `second`.
fn or_else(first: Option<String>, second: Option<String>) -> (r: Option<String>)
    ensures
        opt_view(r) == fill(opt_view(first), opt_view(second)),
{
    match first {
        Some(s) => Some(s),
        None => second,
    }
}

/// The seconds of an interval setting, or the error that it gives.
fn interval_secs(v: &Option<String>, which: Setting) -> (r: Result<u64, ProgramError>)
    ensures
        r == RawSettings::interval(opt_view(*v), which),
{
    match v {
        None => Err(ProgramError::MissingValueError(which)),
        Some(s) => match parse_duration_secs(s.as_str()) {
            Some(n) => Ok(n),
            None => Err(ProgramError::InvalidValueError(which)),
        },
    }
}

/// A command line that names no config file, gives both intervals as
/// durations in order, a destination that reads as an endpoint (its own or the default), and a root path
/// (or the system reports a mount point) resolves, and the settings keep
/// the two intervals, in order.
pub proof fn lemma_cli_only_resolves(
    cli: CliArgs,
    text: Option<Seq<char>>,
    first_interface: Option<Seq<char>>,
    first_mount: Option<Seq<char>>,
)
    requires
        !cli.help,
        cli.config is None,
        cli.min_interval is Some,
        cli.max_interval is Some,
        duration_secs(cli.min_interval->Some_0@) is Some,
        duration_secs(cli.max_interval->Some_0@) is Some,
        duration_secs(cli.min_interval->Some_0@)->Some_0 <= duration_secs(
            cli.max_interval->Some_0@,
        )->Some_0,
        endpoint_of(
            fill(opt_view(cli.stats_destination), Some(default_destination()))->Some_0,
        ) is Some,
        cli.root_path is Some || first_mount is Some,
    ensures
        resolution(cli, text, first_interface, first_mount) matches Ok(Some(c)) && c.min_interval
            == duration_secs(cli.min_interval->Some_0@)->Some_0 && c.max_interval
            == duration_secs(cli.max_interval->Some_0@)->Some_0 && c.min_interval
            <= c.max_interval,
{
}

/// Settings whose intervals read as durations with the minimum above the
/// maximum never build: the error is the ordering violation, carrying both.
pub proof fn lemma_min_above_max_fails(raw: RawSettings)
    requires
        raw.min_interval is Some,
        raw.max_interval is Some,
        duration_secs(raw.min_interval->Some_0) is Some,
        duration_secs(raw.max_interval->Some_0) is Some,
        duration_secs(raw.min_interval->Some_0)->Some_0 > duration_secs(
            raw.max_interval->Some_0,
        )->Some_0,
    ensures
        raw.built() == Err::<ConfigView, ProgramError>(
            ProgramError::MinGreaterThanMaxDurationError(
                duration_secs(raw.min_interval->Some_0)->Some_0,
                duration_secs(raw.max_interval->Some_0)->Some_0,
            ),
        ),
{
}

/// Every setting that the command line gives wins over the config file,
/// and every setting that the config file gives wins over the computed
/// defaults.
pub proof fn lemma_precedence(
    cli: CliArgs,
    file: FileView,
    first_interface: Option<Seq<char>>,
    first_mount: Option<Seq<char>>,
)
    ensures
        ({
            let r = ConfigBuilder::spec_new()@.with_cli(cli@).with_file(file).with_defaults(
                first_interface,
                first_mount,
            );
            &&& r.stats_destination == fill(
                opt_view(cli.stats_destination),
                fill(file.stats_destination, Some(default_destination())),
            )
            &&& r.interface_name == fill(
                opt_view(cli.interface_name),
                fill(file.interface_name, first_interface),
            )
            &&& r.min_interval == fill(
                opt_view(cli.min_interval),
                fill(file.min_interval, Some(default_min_interval())),
            )
            &&& r.max_interval == fill(
                opt_view(cli.max_interval),
                fill(file.max_interval, Some(default_max_interval())),
            )
            &&& r.root_path == fill(opt_view(cli.root_path), fill(file.root_path, first_mount))
        }),
{
}

/// Resolving twice from the same command line, the same config file
/// contents and the same system reports gives the same outcome.
pub proof fn lemma_resolution_repeatable(
    cli: CliArgs,
    text: Option<Seq<char>>,
    first_interface: Option<Seq<char>>,
    first_mount: Option<Seq<char>>,
    first: Result<Option<ConfigView>, ProgramError>,
    second: Result<Option<ConfigView>, ProgramError>,
)
    requires
        first == resolution(cli, text, first_interface, first_mount),
        second == resolution(cli, text, first_interface, first_mount),
    ensures
        first == second,
{
}

/// A config file written from plain settings reads back as those settings:
/// a builder that names the file and has nothing else set takes exactly
/// them from it.
pub proof fn lemma_bootstrap_reads_back(written: RawSettings, text: Seq<char>, reader: RawSettings)
    requires
        written.file_part().is_plain(),
        parsed_ini(text) == Some(settings_entries(written.file_part())),
        reader.config is Some,
        reader.stats_destination is None,
        reader.interface_name is None,
        reader.min_interval is None,
        reader.max_interval is None,
        reader.root_path is None,
    ensures
        after_file(reader, Some(text)) matches Ok(r) && r.file_part() == written.file_part(),
{
    reveal_strlit("default");
    reveal_strlit("stats-destination");
    reveal_strlit("interface-name");
    reveal_strlit("min-interval");
    reveal_strlit("max-interval");
    reveal_strlit("root-path");
    assert("stats-destination"@.len() == 17);
    assert("interface-name"@.len() == 14);
    assert("min-interval"@.len() == 12 && "max-interval"@.len() == 12);
    assert("root-path"@.len() == 9);
    assert("min-interval"@[1] != "max-interval"@[1]);
    assert(file_view(settings_entries(written.file_part())) == written.file_part());
}

} // verus!
