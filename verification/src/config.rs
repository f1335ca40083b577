//! The proxy's configuration: which range of which sheet to read, and where
//! the credentials are.

use vstd::prelude::*;

use crate::document::{lookup, parse_document, toml_document, Field};

verus! {

/// One of the four keys that a configuration document must hold.
#[derive(Debug, Clone, Copy, PartialEq, Eq)]
pub enum Key {
    /// `auth_file`: the path of the credential file.
    AuthFile,
    /// `sheet_id`: the identifier of the spreadsheet document.
    SheetId,
    /// `range`: the cell range to read.
    Range,
    /// `sheet_name`: the name of the sheet that the range lies in.
    SheetName,
}

impl Key {
    /// The key as it is written in the document.
    pub open spec fn spec_name(self) -> Seq<char> {
        match self {
            Key::AuthFile => "auth_file"@,
            Key::SheetId => "sheet_id"@,
            Key::Range => "range"@,
            Key::SheetName => "sheet_name"@,
        }
    }

    /// The key as it is written in the document.
    pub fn name(self) -> (name: &'static str)
        ensures
            name@ == self.spec_name(),
    {
        match self {
            Key::AuthFile => "auth_file",
            Key::SheetId => "sheet_id",
            Key::Range => "range",
            Key::SheetName => "sheet_name",
        }
    }
}

/// Why a configuration could not be loaded.
#[derive(Debug, PartialEq, Eq)]
pub enum ConfigError {
    /// The text is not a TOML document; the parser's message is attached.
    Syntax(String),
    /// The document does not hold this key.
    Missing(Key),
    /// The document holds this key with a value that is not a string.
    Mistyped(Key),
}

impl ConfigError {
    /// The diagnostic for this error, naming the key at fault.
    pub open spec fn spec_describe(&self) -> Seq<char> {
        match self {
            ConfigError::Syntax(message) => "invalid configuration: "@ + message@,
            ConfigError::Missing(key) => "missing field `"@ + key.spec_name() + "`"@,
            ConfigError::Mistyped(key) => "field `"@ + key.spec_name() + "` is not a string"@,
        }
    }

    /// The diagnostic for this error: the parser's message for text that is
    /// not a document, else the key that is missing or not a string.
    pub fn describe(&self) -> (diagnostic: String)
        ensures
            diagnostic@ == self.spec_describe(),
    {
        match self {
            ConfigError::Syntax(message) => {
                let mut diagnostic = String::from_str("invalid configuration: ");
                diagnostic.append(message.as_str());
                diagnostic
            },
            ConfigError::Missing(key) => {
                let mut diagnostic = String::from_str("missing field `");
                diagnostic.append(key.name());
                diagnostic.append("`");
                diagnostic
            },
            ConfigError::Mistyped(key) => {
                let mut diagnostic = String::from_str("field `");
                diagnostic.append(key.name());
                diagnostic.append("` is not a string");
                diagnostic
            },
        }
    }
}

/// The configuration, loaded once and read-only afterwards.
#[derive(Debug, PartialEq, Eq)]
pub struct Config {
    auth_file: String,
    sheet_id: String,
    range: String,
    sheet_name: String,
}

/// The four settings of a configuration.
pub struct ConfigView {
    pub auth_file: Seq<char>,
    pub sheet_id: Seq<char>,
    pub range: Seq<char>,
    pub sheet_name: Seq<char>,
}

impl View for Config {
    type V = ConfigView;

    closed spec fn view(&self) -> ConfigView {
        ConfigView {
            auth_file: self.auth_file@,
            sheet_id: self.sheet_id@,
            range: self.range@,
            sheet_name: self.sheet_name@,
        }
    }
}

/// What is wrong with the entry that a document holds under `key`, if
/// anything: the key must be there, and its value must be a string.
pub open spec fn fault(key: Key, entry: Option<Option<Seq<char>>>) -> Option<ConfigError> {
    match entry {
        None => Some(ConfigError::Missing(key)),
        Some(None) => Some(ConfigError::Mistyped(key)),
        Some(Some(_)) => None,
    }
}

/// The configuration that the four entries give. The entries are examined in
/// the order `auth_file`, `sheet_id`, `range`, `sheet_name`; the first one at
/// fault decides the error.
pub open spec fn assemble(
    auth_file: Option<Option<Seq<char>>>,
    sheet_id: Option<Option<Seq<char>>>,
    range: Option<Option<Seq<char>>>,
    sheet_name: Option<Option<Seq<char>>>,
) -> Result<ConfigView, ConfigError> {
    if let Some(error) = fault(Key::AuthFile, auth_file) {
        Err(error)
    } else if let Some(error) = fault(Key::SheetId, sheet_id) {
        Err(error)
    } else if let Some(error) = fault(Key::Range, range) {
        Err(error)
    } else if let Some(error) = fault(Key::SheetName, sheet_name) {
        Err(error)
    } else {
        Ok(
            ConfigView {
                auth_file: auth_file->0->0,
                sheet_id: sheet_id->0->0,
                range: range->0->0,
                sheet_name: sheet_name->0->0,
            },
        )
    }
}

/// The configuration that a document with these top-level entries gives.
pub open spec fn config_of(entries: Map<Seq<char>, Option<Seq<char>>>) -> Result<
    ConfigView,
    ConfigError,
> {
    assemble(
        entries.get(Key::AuthFile.spec_name()),
        entries.get(Key::SheetId.spec_name()),
        entries.get(Key::Range.spec_name()),
        entries.get(Key::SheetName.spec_name()),
    )
}

/// `loaded` is the outcome that `expected` describes: the configuration with
/// these settings, or this very error.
pub open spec fn loads_as(
    loaded: Result<Config, ConfigError>,
    expected: Result<ConfigView, ConfigError>,
) -> bool {
    match expected {
        Ok(settings) => loaded matches Ok(config) && config@ == settings,
        Err(error) => loaded == Err::<Config, ConfigError>(error),
    }
}

/// A document that lacks one of the four keys does not load.
pub proof fn lemma_missing_key_fails(entries: Map<Seq<char>, Option<Seq<char>>>, key: Key)
    requires
        !entries.dom().contains(key.spec_name()),
    ensures
        config_of(entries) is Err,
{
}

/// A document loads exactly when it holds a string under each of the four
/// keys, and then the configuration holds those four strings.
pub proof fn lemma_loads_iff_complete(entries: Map<Seq<char>, Option<Seq<char>>>)
    ensures
        config_of(entries) is Ok <==> forall|key: Key|
            entries.get(#[trigger] key.spec_name()) matches Some(Some(_)),
        config_of(entries) matches Ok(settings) ==> {
            &&& entries[Key::AuthFile.spec_name()] == Some(settings.auth_file)
            &&& entries[Key::SheetId.spec_name()] == Some(settings.sheet_id)
            &&& entries[Key::Range.spec_name()] == Some(settings.range)
            &&& entries[Key::SheetName.spec_name()] == Some(settings.sheet_name)
        },
{
    if forall|key: Key| entries.get(#[trigger] key.spec_name()) matches Some(Some(_)) {
        assert(entries.get(Key::AuthFile.spec_name()) matches Some(Some(_)));
        assert(entries.get(Key::SheetId.spec_name()) matches Some(Some(_)));
        assert(entries.get(Key::Range.spec_name()) matches Some(Some(_)));
        assert(entries.get(Key::SheetName.spec_name()) matches Some(Some(_)));
    }
}

/// A document that does not load is diagnosed: the error names one of the
/// four keys, and the document's entry for that key is missing where the
/// error says `Missing`, and not a string where it says `Mistyped`.
pub proof fn lemma_error_names_fault(entries: Map<Seq<char>, Option<Seq<char>>>)
    ensures
        config_of(entries) matches Err(error) ==> exists|key: Key|
            #![trigger fault(key, entries.get(key.spec_name()))]
            fault(key, entries.get(key.spec_name())) == Some(error),
{
    if let Err(error) = config_of(entries) {
        let key = match error {
            ConfigError::Missing(key) => key,
            ConfigError::Mistyped(key) => key,
            ConfigError::Syntax(_) => Key::AuthFile,
        };
        assert(fault(key, entries.get(key.spec_name())) == Some(error));
    }
}

impl Config {
    /// Builds the configuration from what a document holds under the four
    /// keys.
    ///
    /// Succeeds exactly when all four are strings. Otherwise the first entry
    /// at fault, in the order of the parameters, decides the error.
    pub fn from_fields(
        auth_file: Field,
        sheet_id: Field,
        range: Field,
        sheet_name: Field,
    ) -> (loaded: Result<Config, ConfigError>)
        ensures
            loads_as(loaded, assemble(auth_file@, sheet_id@, range@, sheet_name@)),
            loaded is Ok <==> auth_file is Text && sheet_id is Text && range is Text
                && sheet_name is Text,
    {
        let auth_file = match auth_file {
            Field::Text(text) => text,
            Field::Absent => { return Err(ConfigError::Missing(Key::AuthFile)); },
            Field::NotText => { return Err(ConfigError::Mistyped(Key::AuthFile)); },
        };
        let sheet_id = match sheet_id {
            Field::Text(text) => text,
            Field::Absent => { return Err(ConfigError::Missing(Key::SheetId)); },
            Field::NotText => { return Err(ConfigError::Mistyped(Key::SheetId)); },
        };
        let range = match range {
            Field::Text(text) => text,
            Field::Absent => { return Err(ConfigError::Missing(Key::Range)); },
            Field::NotText => { return Err(ConfigError::Mistyped(Key::Range)); },
        };
        let sheet_name = match sheet_name {
            Field::Text(text) => text,
            Field::Absent => { return Err(ConfigError::Missing(Key::SheetName)); },
            Field::NotText => { return Err(ConfigError::Mistyped(Key::SheetName)); },
        };
        Ok(Config { auth_file, sheet_id, range, sheet_name })
    }

    /// Loads the configuration from the text of a TOML document.
    ///
    /// Text that the parser rejects gives `Syntax` with the parser's message.
    /// A parsed document gives what `config_of` says of its top-level entries:
    /// all four keys must be there, each with a string; no default stands in
    /// for a key that is not. In particular a document that lacks any of the
    /// four keys does not load.
    pub fn new(text: &str) -> (loaded: Result<Config, ConfigError>)
        ensures
            match toml_document(text@) {
                Err(message) => loaded matches Err(ConfigError::Syntax(m)) && m@ == message,
                Ok(entries) => loads_as(loaded, config_of(entries)),
            },
            forall|key: Key|
                toml_document(text@) matches Ok(entries) && !entries.dom().contains(
                    #[trigger] key.spec_name(),
                ) ==> loaded is Err,
    {
        match parse_document(text) {
            Err(message) => Err(ConfigError::Syntax(message)),
            Ok(table) => {
                let auth_file = lookup(&table, Key::AuthFile.name());
                let sheet_id = lookup(&table, Key::SheetId.name());
                let range = lookup(&table, Key::Range.name());
                let sheet_name = lookup(&table, Key::SheetName.name());
                Config::from_fields(auth_file, sheet_id, range, sheet_name)
            },
        }
    }

    /// The range as the upstream read names it: the sheet's name, `!`, and
    /// the cell range.
    pub fn range_expression(&self) -> (expression: String)
        ensures
            expression@ == self@.sheet_name + seq!['!'] + self@.range,
    {
        let mut expression = self.sheet_name.clone();
        expression.append("!");
        expression.append(self.range.as_str());
        proof {
            reveal_strlit("!");
            assert("!"@ =~= seq!['!']);
        }
        expression
    }

    /// The path of the credential file.
    pub fn get_auth_file(&self) -> (auth_file: &String)
        ensures
            auth_file@ == self@.auth_file,
    {
        &self.auth_file
    }

    /// The identifier of the spreadsheet document.
    pub fn get_sheet_id(&self) -> (sheet_id: &String)
        ensures
            sheet_id@ == self@.sheet_id,
    {
        &self.sheet_id
    }

    /// The cell range to read, such as `A1:D100`.
    pub fn get_range(&self) -> (range: &String)
        ensures
            range@ == self@.range,
    {
        &self.range
    }

    /// The name of the sheet that the range lies in.
    pub fn get_sheet_name(&self) -> (sheet_name: &String)
        ensures
            sheet_name@ == self@.sheet_name,
    {
        &self.sheet_name
    }
}

} // verus!
