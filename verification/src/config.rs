//! Runtime configuration, sourced from the environment so that no secret is compiled in.
//!
//! | Variable | Meaning | Example |
//! |----------|---------|---------|
//! | `SECUROSYS_PKCS11_LIB` | path to `libprimusP11.so` (falls back to `PKCS11_LIB`) | `/opt/primus/lib/libprimusP11.so` |
//! | `SECUROSYS_SLOT_LABEL` *or* `SECUROSYS_SLOT_ID` | partition/slot to open | `EmeraldFoundation` / `0` |
//! | `SECUROSYS_PKCS11_PASSWORD` | PKCS#11 user password (secret) | |
//! | `SECUROSYS_DERIVATION_PATH` | BIP-32 path root for the federation key | `m/48'/1'/0'/2'` |
//! | `SECUROSYS_ENDPOINT` | native-API host (informational) | `ch01-api.cloudshsm.com` |
//! | `SECUROSYS_PKCS11_PORT` | native-API PKCS#11 port | `2310` |
use crate::bip32::{bip32_path, parse_bip32_path, path_from_words, path_of_words, ChildNumber};
use crate::error::{SecurosysError, SecurosysErrorView};
use crate::secret::Secret;
use crate::text::{
    decimal, law_decimal_is_a_number, parse_u16, parse_u64, u16_parse_error, u64_parse_error,
    unsigned_value,
};
use vstd::prelude::*;

verus! {

/// The default native-API PKCS#11 port for Securosys `CloudHSM`.
pub const DEFAULT_PKCS11_PORT: u16 = 2310;

/// The environment variables that are set, each a name and a value.
pub struct EnvVars {
    pub vars: Vec<(String, String)>,
}

/// The value of the first variable called `name`.
pub open spec fn var_value(vars: Seq<(String, String)>, name: Seq<char>) -> Option<Seq<char>>
    decreases vars.len(),
{
    if vars.len() == 0 {
        None
    } else if vars[0].0@ == name {
        Some(vars[0].1@)
    } else {
        var_value(vars.drop_first(), name)
    }
}

/// The text of an optional string.
pub open spec fn option_text(text: Option<String>) -> Option<Seq<char>> {
    match text {
        Some(text) => Some(text@),
        None => None,
    }
}

impl EnvVars {
    /// The value of the variable `name`.
    pub open spec fn value(self, name: Seq<char>) -> Option<Seq<char>> {
        var_value(self.vars@, name)
    }

    /// The value of the variable `name`.
    pub fn var(&self, name: &str) -> (value: Option<String>)
        ensures
            option_text(value) == self.value(name@),
    {
        let wanted = name.to_owned();
        let mut i: usize = 0;
        assert(self.vars@.skip(0) =~= self.vars@);
        while i < self.vars.len()
            invariant
                i <= self.vars@.len(),
                wanted@ == name@,
                self.value(name@) == var_value(self.vars@.skip(i as int), name@),
            decreases self.vars@.len() - i,
        {
            assert(self.vars@.skip(i as int).drop_first() =~= self.vars@.skip(i + 1));
            if self.vars[i].0 == wanted {
                return Some(self.vars[i].1.clone());
            }
            i = i + 1;
        }
        None
    }
}

/// How a token is identified.
#[derive(Debug, PartialEq, Eq)]
pub enum SlotIdentifier {
    /// By its label.
    Label(String),
    /// By its raw slot id.
    SlotId(u64),
}

/// A [`SlotIdentifier`] with its text as a character sequence.
pub enum SlotIdentifierView {
    Label(Seq<char>),
    SlotId(u64),
}

impl View for SlotIdentifier {
    type V = SlotIdentifierView;

    open spec fn view(&self) -> SlotIdentifierView {
        match *self {
            SlotIdentifier::Label(label) => SlotIdentifierView::Label(label@),
            SlotIdentifier::SlotId(id) => SlotIdentifierView::SlotId(id),
        }
    }
}

/// Everything needed to open a Securosys PKCS#11 session, minus the permanent
/// secret, which the Primus provider fetches on first connect.
pub struct SecurosysConfig {
    /// Filesystem path to `libprimusP11.so`.
    pub library_path: String,
    /// Partition/slot to open.
    pub slot: SlotIdentifier,
    /// PKCS#11 user password.
    pub pin: Secret,
    /// Root BIP-32 derivation path for the federation key.
    pub derivation_path: Vec<ChildNumber>,
    /// Native-API endpoint host (diagnostics only).
    pub endpoint: Option<String>,
    /// Native-API PKCS#11 port (diagnostics only).
    pub port: u16,
}

/// A [`SecurosysConfig`] with its texts as character sequences.
pub struct SecurosysConfigView {
    pub library_path: Seq<char>,
    pub slot: SlotIdentifierView,
    pub pin: Seq<char>,
    pub derivation_path: Seq<ChildNumber>,
    pub endpoint: Option<Seq<char>>,
    pub port: u16,
}

impl View for SecurosysConfig {
    type V = SecurosysConfigView;

    open spec fn view(&self) -> SecurosysConfigView {
        SecurosysConfigView {
            library_path: self.library_path@,
            slot: self.slot@,
            pin: self.pin@,
            derivation_path: self.derivation_path@,
            endpoint: option_text(self.endpoint),
            port: self.port,
        }
    }
}

/// The library path that `env` names.
pub open spec fn library_from(env: EnvVars) -> Result<Seq<char>, SecurosysErrorView> {
    match env.value("SECUROSYS_PKCS11_LIB"@) {
        Some(path) => Ok(path),
        None => match env.value("PKCS11_LIB"@) {
            Some(path) => Ok(path),
            None => Err(SecurosysErrorView::MissingConfig("SECUROSYS_PKCS11_LIB (or PKCS11_LIB)"@)),
        },
    }
}

/// The slot that `env` names: its label, or else its id.
pub open spec fn slot_from(env: EnvVars) -> Result<SlotIdentifierView, SecurosysErrorView> {
    match env.value("SECUROSYS_SLOT_LABEL"@) {
        Some(label) => Ok(SlotIdentifierView::Label(label)),
        None => match env.value("SECUROSYS_SLOT_ID"@) {
            Some(id) => match unsigned_value(id, u64::MAX as nat) {
                Some(id) => Ok(SlotIdentifierView::SlotId(id as u64)),
                None => Err(
                    SecurosysErrorView::InvalidConfig {
                        key: "SECUROSYS_SLOT_ID"@,
                        reason: u64_parse_error(id),
                    },
                ),
            },
            None => Err(
                SecurosysErrorView::MissingConfig("SECUROSYS_SLOT_LABEL or SECUROSYS_SLOT_ID"@),
            ),
        },
    }
}

/// The port that `env` names, or the default one.
pub open spec fn port_from(env: EnvVars) -> Result<u16, SecurosysErrorView> {
    match env.value("SECUROSYS_PKCS11_PORT"@) {
        Some(port) => match unsigned_value(port, u16::MAX as nat) {
            Some(port) => Ok(port as u16),
            None => Err(
                SecurosysErrorView::InvalidConfig {
                    key: "SECUROSYS_PKCS11_PORT"@,
                    reason: u16_parse_error(port),
                },
            ),
        },
        None => Ok(DEFAULT_PKCS11_PORT),
    }
}

/// A required variable of `env`.
pub open spec fn required_from(env: EnvVars, name: Seq<char>) -> Result<
    Seq<char>,
    SecurosysErrorView,
> {
    match env.value(name) {
        Some(value) => Ok(value),
        None => Err(SecurosysErrorView::MissingConfig(name)),
    }
}

/// The configuration that `env` describes once its derivation path was parsed
/// as `parsed`: the first thing that is wrong, or all of it.
pub open spec fn config_with_path(
    env: EnvVars,
    library_path: Seq<char>,
    slot: SlotIdentifierView,
    pin: Seq<char>,
    parsed: Result<Seq<u32>, Seq<char>>,
) -> Result<SecurosysConfigView, SecurosysErrorView> {
    match parsed {
        Ok(words) => match port_from(env) {
            Ok(port) => Ok(
                SecurosysConfigView {
                    library_path,
                    slot,
                    pin,
                    derivation_path: path_of_words(words),
                    endpoint: env.value("SECUROSYS_ENDPOINT"@),
                    port,
                },
            ),
            Err(e) => Err(e),
        },
        Err(reason) => Err(SecurosysErrorView::DerivationPath(reason)),
    }
}

/// The configuration that `env` describes: the first thing that is missing or
/// malformed, in the order library, slot, password, path, port, or all of it.
pub open spec fn config_from(env: EnvVars) -> Result<SecurosysConfigView, SecurosysErrorView> {
    match library_from(env) {
        Err(e) => Err(e),
        Ok(library_path) => match slot_from(env) {
            Err(e) => Err(e),
            Ok(slot) => match required_from(env, "SECUROSYS_PKCS11_PASSWORD"@) {
                Err(e) => Err(e),
                Ok(pin) => match required_from(env, "SECUROSYS_DERIVATION_PATH"@) {
                    Err(e) => Err(e),
                    Ok(path) => config_with_path(env, library_path, slot, pin, bip32_path(path)),
                },
            },
        },
    }
}

/// The views of a result's texts.
pub open spec fn config_result(result: Result<SecurosysConfig, SecurosysError>) -> Result<
    SecurosysConfigView,
    SecurosysErrorView,
> {
    match result {
        Ok(config) => Ok(config@),
        Err(e) => Err(e@),
    }
}

/// The library path that `env` names.
pub fn library_from_env(env: &EnvVars) -> (path: Result<String, SecurosysError>)
    ensures
        match path {
            Ok(path) => library_from(*env) == Ok::<Seq<char>, SecurosysErrorView>(path@),
            Err(e) => library_from(*env) == Err::<Seq<char>, SecurosysErrorView>(e@),
        },
{
    match env.var("SECUROSYS_PKCS11_LIB") {
        Some(path) => Ok(path),
        None => match env.var("PKCS11_LIB") {
            Some(path) => Ok(path),
            None => Err(
                SecurosysError::MissingConfig("SECUROSYS_PKCS11_LIB (or PKCS11_LIB)".to_owned()),
            ),
        },
    }
}

/// The slot whose id was parsed, or the parser's reason as an error.
pub fn slot_from_parsed_id(parsed: Result<u64, String>) -> (slot: Result<
    SlotIdentifier,
    SecurosysError,
>)
    ensures
        match parsed {
            Ok(id) => slot == Ok::<SlotIdentifier, SecurosysError>(SlotIdentifier::SlotId(id)),
            Err(reason) => slot matches Err(e) && e@ == (SecurosysErrorView::InvalidConfig {
                key: "SECUROSYS_SLOT_ID"@,
                reason: reason@,
            }),
        },
{
    match parsed {
        Ok(id) => Ok(SlotIdentifier::SlotId(id)),
        Err(reason) => Err(
            SecurosysError::InvalidConfig { key: "SECUROSYS_SLOT_ID".to_owned(), reason },
        ),
    }
}

/// The port that was parsed, or the parser's reason as an error.
pub fn port_from_parsed(parsed: Result<u16, String>) -> (port: Result<u16, SecurosysError>)
    ensures
        match parsed {
            Ok(parsed) => port == Ok::<u16, SecurosysError>(parsed),
            Err(reason) => port matches Err(e) && e@ == (SecurosysErrorView::InvalidConfig {
                key: "SECUROSYS_PKCS11_PORT"@,
                reason: reason@,
            }),
        },
{
    match parsed {
        Ok(port) => Ok(port),
        Err(reason) => Err(
            SecurosysError::InvalidConfig { key: "SECUROSYS_PKCS11_PORT".to_owned(), reason },
        ),
    }
}

/// The slot that `env` names: its label, or else its id.
pub fn slot_from_env(env: &EnvVars) -> (slot: Result<SlotIdentifier, SecurosysError>)
    ensures
        match slot {
            Ok(slot) => slot_from(*env) == Ok::<SlotIdentifierView, SecurosysErrorView>(slot@),
            Err(e) => slot_from(*env) == Err::<SlotIdentifierView, SecurosysErrorView>(e@),
        },
{
    match env.var("SECUROSYS_SLOT_LABEL") {
        Some(label) => Ok(SlotIdentifier::Label(label)),
        None => match env.var("SECUROSYS_SLOT_ID") {
            Some(id) => slot_from_parsed_id(parse_u64(id.as_str())),
            None => Err(
                SecurosysError::MissingConfig(
                    "SECUROSYS_SLOT_LABEL or SECUROSYS_SLOT_ID".to_owned(),
                ),
            ),
        },
    }
}

/// The port that `env` names, or the default one.
pub fn port_from_env(env: &EnvVars) -> (port: Result<u16, SecurosysError>)
    ensures
        match port {
            Ok(port) => port_from(*env) == Ok::<u16, SecurosysErrorView>(port),
            Err(e) => port_from(*env) == Err::<u16, SecurosysErrorView>(e@),
        },
{
    match env.var("SECUROSYS_PKCS11_PORT") {
        Some(port) => port_from_parsed(parse_u16(port.as_str())),
        None => Ok(DEFAULT_PKCS11_PORT),
    }
}

/// A required variable of `env`.
fn required_from_env(env: &EnvVars, name: &str) -> (value: Result<String, SecurosysError>)
    ensures
        match value {
            Ok(value) => required_from(*env, name@) == Ok::<Seq<char>, SecurosysErrorView>(value@),
            Err(e) => required_from(*env, name@) == Err::<Seq<char>, SecurosysErrorView>(e@),
        },
{
    match env.var(name) {
        Some(value) => Ok(value),
        None => Err(SecurosysError::MissingConfig(name.to_owned())),
    }
}

/// What a debug view shows of one field.
pub enum DebugField<'a> {
    /// A text.
    Text(&'a str),
    /// A slot.
    Slot(&'a SlotIdentifier),
    /// A derivation path.
    Path(&'a [ChildNumber]),
    /// An optional text.
    Optional(&'a Option<String>),
    /// A port.
    Port(u16),
}

/// A [`DebugField`] with its texts as character sequences.
pub enum DebugFieldView {
    Text(Seq<char>),
    Slot(SlotIdentifierView),
    Path(Seq<ChildNumber>),
    Optional(Option<Seq<char>>),
    Port(u16),
}

impl<'a> View for DebugField<'a> {
    type V = DebugFieldView;

    open spec fn view(&self) -> DebugFieldView {
        match *self {
            DebugField::Text(text) => DebugFieldView::Text(text@),
            DebugField::Slot(slot) => DebugFieldView::Slot(slot@),
            DebugField::Path(path) => DebugFieldView::Path(path@),
            DebugField::Optional(text) => DebugFieldView::Optional(option_text(*text)),
            DebugField::Port(port) => DebugFieldView::Port(port),
        }
    }
}

/// The names and views of debug fields.
pub open spec fn debug_fields_view<'a>(fields: Seq<(&'static str, DebugField<'a>)>) -> Seq<
    (Seq<char>, DebugFieldView),
> {
    fields.map_values(|field: (&'static str, DebugField<'a>)| (field.0@, field.1@))
}

impl SecurosysConfigView {
    /// What a debug view of the configuration shows: every field by its name,
    /// and in the place of the password that it is left out.
    pub open spec fn debug_fields(self) -> Seq<(Seq<char>, DebugFieldView)> {
        seq![
            ("library_path"@, DebugFieldView::Text(self.library_path)),
            ("slot"@, DebugFieldView::Slot(self.slot)),
            ("pin"@, DebugFieldView::Text("<redacted>"@)),
            ("derivation_path"@, DebugFieldView::Path(self.derivation_path)),
            ("endpoint"@, DebugFieldView::Optional(self.endpoint)),
            ("port"@, DebugFieldView::Port(self.port)),
        ]
    }
}

impl SecurosysConfig {
    /// The configuration that `env` describes, where its derivation path was
    /// parsed as `parsed`.
    pub fn with_parsed_path(
        env: &EnvVars,
        library_path: String,
        slot: SlotIdentifier,
        pin: Secret,
        parsed: Result<Vec<u32>, String>,
    ) -> (config: Result<SecurosysConfig, SecurosysError>)
        ensures
            config_result(config) == config_with_path(
                *env,
                library_path@,
                slot@,
                pin@,
                match parsed {
                    Ok(words) => Ok::<Seq<u32>, Seq<char>>(words@),
                    Err(reason) => Err(reason@),
                },
            ),
    {
        let derivation_path = match path_from_words(parsed) {
            Ok(path) => path,
            Err(e) => return Err(e),
        };
        let endpoint = env.var("SECUROSYS_ENDPOINT");
        let port: u16 = match port_from_env(env) {
            Ok(port) => port,
            Err(e) => return Err(e),
        };
        Ok(SecurosysConfig { library_path, slot, pin, derivation_path, endpoint, port })
    }

    /// Load the configuration from the variables of the environment.
    pub fn from_env(env: &EnvVars) -> (config: Result<SecurosysConfig, SecurosysError>)
        ensures
            config_result(config) == config_from(*env),
    {
        let library_path = match library_from_env(env) {
            Ok(path) => path,
            Err(e) => return Err(e),
        };
        let slot = match slot_from_env(env) {
            Ok(slot) => slot,
            Err(e) => return Err(e),
        };
        let pin = match required_from_env(env, "SECUROSYS_PKCS11_PASSWORD") {
            Ok(pin) => Secret::new(pin),
            Err(e) => return Err(e),
        };
        let path = match required_from_env(env, "SECUROSYS_DERIVATION_PATH") {
            Ok(path) => path,
            Err(e) => return Err(e),
        };
        let parsed = parse_bip32_path(path.as_str());
        SecurosysConfig::with_parsed_path(env, library_path, slot, pin, parsed)
    }

    /// What a debug view of the configuration shows; never the password.
    pub fn debug_fields<'a>(&'a self) -> (fields: Vec<(&'static str, DebugField<'a>)>)
        ensures
            debug_fields_view(fields@) == self@.debug_fields(),
    {
        let fields = vec![
            ("library_path", DebugField::Text(self.library_path.as_str())),
            ("slot", DebugField::Slot(&self.slot)),
            ("pin", DebugField::Text("<redacted>")),
            ("derivation_path", DebugField::Path(self.derivation_path.as_slice())),
            ("endpoint", DebugField::Optional(&self.endpoint)),
            ("port", DebugField::Port(self.port)),
        ];
        assert(debug_fields_view(fields@) =~= self@.debug_fields());
        fields
    }
}

/// The password does not show in a debug view: two configurations that differ
/// in it alone look the same.
pub proof fn law_debug_hides_pin(config: SecurosysConfigView, pin: Seq<char>)
    ensures
        (SecurosysConfigView { pin, ..config }).debug_fields() == config.debug_fields(),
{
}

/// A slot label wins over a slot id: where the label is set, the id is not even read.
pub proof fn law_slot_label_wins(env: EnvVars)
    requires
        env.value("SECUROSYS_SLOT_LABEL"@) is Some,
    ensures
        slot_from(env) == Ok::<SlotIdentifierView, SecurosysErrorView>(
            SlotIdentifierView::Label(env.value("SECUROSYS_SLOT_LABEL"@)->0),
        ),
{
}

/// A variable has the value that stands beside the first occurrence of its name.
pub proof fn law_first_occurrence_counts(env: EnvVars, name: Seq<char>, k: int)
    requires
        0 <= k < env.vars@.len(),
        env.vars@[k].0@ == name,
        forall|j: int| 0 <= j < k ==> (#[trigger] env.vars@[j]).0@ != name,
    ensures
        env.value(name) == Some(env.vars@[k].1@),
{
    lemma_first_occurrence(env.vars@, name, k);
}

/// The same of a sequence of names and values.
proof fn lemma_first_occurrence(vars: Seq<(String, String)>, name: Seq<char>, k: int)
    requires
        0 <= k < vars.len(),
        vars[k].0@ == name,
        forall|j: int| 0 <= j < k ==> (#[trigger] vars[j]).0@ != name,
    ensures
        var_value(vars, name) == Some(vars[k].1@),
    decreases k,
{
    if k > 0 {
        let rest = vars.drop_first();
        assert forall|j: int| 0 <= j < k - 1 implies (#[trigger] rest[j]).0@ != name by {
            assert(rest[j] == vars[j + 1]);
        }
        assert(vars[0].0@ != name);
        lemma_first_occurrence(rest, name, k - 1);
    }
}

/// A variable whose name does not occur has no value.
pub proof fn law_absent_variable(env: EnvVars, name: Seq<char>)
    requires
        forall|j: int| 0 <= j < env.vars@.len() ==> (#[trigger] env.vars@[j]).0@ != name,
    ensures
        env.value(name) is None,
{
    lemma_absent(env.vars@, name);
}

/// The same of a sequence of names and values.
proof fn lemma_absent(vars: Seq<(String, String)>, name: Seq<char>)
    requires
        forall|j: int| 0 <= j < vars.len() ==> (#[trigger] vars[j]).0@ != name,
    ensures
        var_value(vars, name) is None,
    decreases vars.len(),
{
    if vars.len() > 0 {
        let rest = vars.drop_first();
        assert forall|j: int| 0 <= j < rest.len() implies (#[trigger] rest[j]).0@ != name by {
            assert(rest[j] == vars[j + 1]);
        }
        assert(vars[0].0@ != name);
        lemma_absent(rest, name);
    }
}

/// The view of a configuration holds each of its fields as it is.
pub proof fn law_configuration_is_seen_whole(config: SecurosysConfig, slot: SlotIdentifier)
    ensures
        config@.library_path == config.library_path@,
        config@.slot == config.slot@,
        config@.pin == config.pin@,
        config@.derivation_path == config.derivation_path@,
        config.endpoint is Some ==> config@.endpoint == Some(config.endpoint->0@),
        config.endpoint is None ==> config@.endpoint is None,
        config@.port == config.port,
        slot is Label ==> slot@ == SlotIdentifierView::Label(slot->Label_0@),
        slot is SlotId ==> slot@ == SlotIdentifierView::SlotId(slot->SlotId_0),
        config_result(Ok(config)) == Ok::<SecurosysConfigView, SecurosysErrorView>(config@),
{
}

/// An optional text is seen as its text where it is there.
pub proof fn law_option_is_seen_whole(text: String)
    ensures
        option_text(Some(text)) == Some(text@),
        option_text(None) is None,
{
}

/// A failure to configure is seen as its error.
pub proof fn law_configuration_failure_is_seen(e: SecurosysError)
    ensures
        config_result(Err(e)) == Err::<SecurosysConfigView, SecurosysErrorView>(e@),
{
}

/// The library is the one named for Securosys, or else the one named for any
/// PKCS#11 provider; without either it is missing.
pub proof fn law_library_falls_back(env: EnvVars)
    ensures
        env.value("SECUROSYS_PKCS11_LIB"@) matches Some(path) ==> library_from(env) == Ok::<
            Seq<char>,
            SecurosysErrorView,
        >(path),
        env.value("SECUROSYS_PKCS11_LIB"@) is None ==> (env.value("PKCS11_LIB"@) matches Some(path)
            ==> library_from(env) == Ok::<Seq<char>, SecurosysErrorView>(path)),
        env.value("SECUROSYS_PKCS11_LIB"@) is None && env.value("PKCS11_LIB"@) is None
            ==> library_from(env) == Err::<Seq<char>, SecurosysErrorView>(
            SecurosysErrorView::MissingConfig("SECUROSYS_PKCS11_LIB (or PKCS11_LIB)"@),
        ),
{
}

/// Without a label, the slot is the one whose id is written in decimal, with or
/// without leading zeros or a plus sign; an id that is no 64-bit number is
/// invalid; without an id, too, the slot is missing.
pub proof fn law_slot_id_is_a_number(env: EnvVars, n: nat)
    requires
        env.value("SECUROSYS_SLOT_LABEL"@) is None,
    ensures
        env.value("SECUROSYS_SLOT_ID"@) == Some(decimal(n)) && n <= u64::MAX ==> slot_from(env)
            == Ok::<SlotIdentifierView, SecurosysErrorView>(SlotIdentifierView::SlotId(n as u64)),
        env.value("SECUROSYS_SLOT_ID"@) matches Some(id) ==> match unsigned_value(
            id,
            u64::MAX as nat,
        ) {
            Some(value) => slot_from(env) matches Ok(SlotIdentifierView::SlotId(slot)) && slot
                == value,
            None => slot_from(env) matches Err(SecurosysErrorView::InvalidConfig { key, reason })
                && key == "SECUROSYS_SLOT_ID"@ && reason == u64_parse_error(id),
        },
        env.value("SECUROSYS_SLOT_ID"@) is None ==> slot_from(env) == Err::<
            SlotIdentifierView,
            SecurosysErrorView,
        >(SecurosysErrorView::MissingConfig("SECUROSYS_SLOT_LABEL or SECUROSYS_SLOT_ID"@)),
{
    law_decimal_is_a_number(n, u64::MAX as nat);
    if let Some(id) = env.value("SECUROSYS_SLOT_ID"@) {
        lemma_value_fits(id, u64::MAX as nat);
    }
}

/// A number that was read is within its bound.
proof fn lemma_value_fits(text: Seq<char>, max: nat)
    ensures
        unsigned_value(text, max) matches Some(value) ==> value <= max,
{
}

/// The port is the one that is written in decimal; one that is no 16-bit number
/// is invalid; without any it is 2310.
pub proof fn law_port_is_a_number(env: EnvVars, n: nat)
    ensures
        env.value("SECUROSYS_PKCS11_PORT"@) == Some(decimal(n)) && n <= u16::MAX ==> port_from(env)
            == Ok::<u16, SecurosysErrorView>(n as u16),
        env.value("SECUROSYS_PKCS11_PORT"@) matches Some(text) ==> match unsigned_value(
            text,
            u16::MAX as nat,
        ) {
            Some(value) => port_from(env) matches Ok(port) && port == value,
            None => port_from(env) matches Err(SecurosysErrorView::InvalidConfig { key, reason })
                && key == "SECUROSYS_PKCS11_PORT"@ && reason == u16_parse_error(text),
        },
        env.value("SECUROSYS_PKCS11_PORT"@) is None ==> port_from(env) == Ok::<
            u16,
            SecurosysErrorView,
        >(2310u16),
{
    law_decimal_is_a_number(n, u16::MAX as nat);
    if let Some(text) = env.value("SECUROSYS_PKCS11_PORT"@) {
        lemma_value_fits(text, u16::MAX as nat);
    }
}

/// A required variable gives its value, or is missing under its own name.
pub proof fn law_required_variable(env: EnvVars, name: Seq<char>)
    ensures
        env.value(name) matches Some(value) ==> required_from(env, name) == Ok::<
            Seq<char>,
            SecurosysErrorView,
        >(value),
        env.value(name) is None ==> required_from(env, name) == Err::<
            Seq<char>,
            SecurosysErrorView,
        >(SecurosysErrorView::MissingConfig(name)),
{
}

/// A configuration that loads holds the values of the environment, each in its
/// own field, and the steps of its derivation path in their order.
pub proof fn law_configuration_holds_the_environment(env: EnvVars)
    ensures
        config_from(env) matches Ok(config) ==> {
            &&& library_from(env) == Ok::<Seq<char>, SecurosysErrorView>(config.library_path)
            &&& slot_from(env) == Ok::<SlotIdentifierView, SecurosysErrorView>(config.slot)
            &&& env.value("SECUROSYS_PKCS11_PASSWORD"@) == Some(config.pin)
            &&& env.value("SECUROSYS_ENDPOINT"@) == config.endpoint
            &&& port_from(env) == Ok::<u16, SecurosysErrorView>(config.port)
            &&& env.value("SECUROSYS_DERIVATION_PATH"@) matches Some(path)
            &&& bip32_path(path) matches Ok(words)
            &&& config.derivation_path.len() == words.len()
            &&& forall|i: int|
                0 <= i < words.len() ==> #[trigger] config.derivation_path[i]
                    == ChildNumber::of_word(words[i])
        },
{
}

/// A configuration loads exactly where nothing is wrong, and else fails for the
/// first thing that is: the library, the slot, the password, the derivation
/// path, the port.
pub proof fn law_first_problem_is_reported(env: EnvVars)
    ensures
        library_from(env) matches Err(e) ==> config_from(env) == Err::<
            SecurosysConfigView,
            SecurosysErrorView,
        >(e),
        library_from(env) is Ok ==> (slot_from(env) matches Err(e) ==> config_from(env) == Err::<
            SecurosysConfigView,
            SecurosysErrorView,
        >(e)),
        library_from(env) is Ok && slot_from(env) is Ok ==> {
            let pin = env.value("SECUROSYS_PKCS11_PASSWORD"@);
            let path = env.value("SECUROSYS_DERIVATION_PATH"@);
            &&& pin is None ==> config_from(env) == Err::<SecurosysConfigView, SecurosysErrorView>(
                SecurosysErrorView::MissingConfig("SECUROSYS_PKCS11_PASSWORD"@),
            )
            &&& pin is Some && path is None ==> config_from(env) == Err::<
                SecurosysConfigView,
                SecurosysErrorView,
            >(SecurosysErrorView::MissingConfig("SECUROSYS_DERIVATION_PATH"@))
            &&& pin is Some ==> (path matches Some(path) ==> match bip32_path(path) {
                Err(reason) => config_from(env) == Err::<SecurosysConfigView, SecurosysErrorView>(
                    SecurosysErrorView::DerivationPath(reason),
                ),
                Ok(_) => match port_from(env) {
                    Err(e) => config_from(env) == Err::<SecurosysConfigView, SecurosysErrorView>(e),
                    Ok(_) => config_from(env) is Ok,
                },
            })
        },
{
}

/// Given its parts, a configuration holds them as they are, with the endpoint
/// and the port of the environment; a bad path comes before a bad port.
pub proof fn law_configuration_holds_its_parts(
    env: EnvVars,
    library_path: Seq<char>,
    slot: SlotIdentifierView,
    pin: Seq<char>,
    parsed: Result<Seq<u32>, Seq<char>>,
)
    ensures
        match parsed {
            Err(reason) => config_with_path(env, library_path, slot, pin, parsed) == Err::<
                SecurosysConfigView,
                SecurosysErrorView,
            >(SecurosysErrorView::DerivationPath(reason)),
            Ok(words) => match port_from(env) {
                Err(e) => config_with_path(env, library_path, slot, pin, parsed) == Err::<
                    SecurosysConfigView,
                    SecurosysErrorView,
                >(e),
                Ok(port) => {
                    &&& config_with_path(env, library_path, slot, pin, parsed) matches Ok(config)
                    &&& config.library_path == library_path
                    &&& config.slot == slot
                    &&& config.pin == pin
                    &&& config.endpoint == env.value("SECUROSYS_ENDPOINT"@)
                    &&& config.port == port
                    &&& config.derivation_path.len() == words.len()
                    &&& forall|i: int|
                        0 <= i < words.len() ==> #[trigger] config.derivation_path[i]
                            == ChildNumber::of_word(words[i])
                },
            },
        },
{
}

/// A debug view shows six fields, each but the password as it is.
pub proof fn law_debug_view_shows_the_fields(config: SecurosysConfigView)
    ensures
        config.debug_fields().len() == 6,
        config.debug_fields().contains(
            ("library_path"@, DebugFieldView::Text(config.library_path)),
        ),
        config.debug_fields().contains(("slot"@, DebugFieldView::Slot(config.slot))),
        config.debug_fields().contains(("pin"@, DebugFieldView::Text("<redacted>"@))),
        config.debug_fields().contains(
            ("derivation_path"@, DebugFieldView::Path(config.derivation_path)),
        ),
        config.debug_fields().contains(("endpoint"@, DebugFieldView::Optional(config.endpoint))),
        config.debug_fields().contains(("port"@, DebugFieldView::Port(config.port))),
{
    let fields = config.debug_fields();
    assert(fields[0] == ("library_path"@, DebugFieldView::Text(config.library_path)));
    assert(fields[1] == ("slot"@, DebugFieldView::Slot(config.slot)));
    assert(fields[2] == ("pin"@, DebugFieldView::Text("<redacted>"@)));
    assert(fields[3] == ("derivation_path"@, DebugFieldView::Path(config.derivation_path)));
    assert(fields[4] == ("endpoint"@, DebugFieldView::Optional(config.endpoint)));
    assert(fields[5] == ("port"@, DebugFieldView::Port(config.port)));
}

/// The views of debug fields are of the same kind and hold the same.
pub proof fn law_debug_fields_are_seen_whole<'a>(
    fields: Seq<(&'static str, DebugField<'a>)>,
    i: int,
)
    ensures
        debug_fields_view(fields).len() == fields.len(),
        0 <= i < fields.len() ==> debug_fields_view(fields)[i].0 == fields[i].0@ && (
        match fields[i].1 {
            DebugField::Text(text) => debug_fields_view(fields)[i].1 == DebugFieldView::Text(text@),
            DebugField::Slot(slot) => debug_fields_view(fields)[i].1 == DebugFieldView::Slot(slot@),
            DebugField::Path(path) => debug_fields_view(fields)[i].1 == DebugFieldView::Path(path@),
            DebugField::Optional(text) => debug_fields_view(fields)[i].1
                == DebugFieldView::Optional(
                match *text {
                    Some(text) => Some(text@),
                    None => None,
                },
            ),
            DebugField::Port(port) => debug_fields_view(fields)[i].1 == DebugFieldView::Port(port),
        }),
{
}

} // verus!
