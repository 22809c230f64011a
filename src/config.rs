use vstd::prelude::*;

verus! {

/// The characters of an optional string.
pub open spec fn optional_text(o: Option<String>) -> Option<Seq<char>> {
    match o {
        Some(s) => Some(s@),
        None => None,
    }
}

/// Builds a `Config`, starting from the defaults: no diary folder yet, the
/// prefix `diary` and the file type `md`.
pub struct ConfigBuilder {
    diary_path: Option<String>,
    prefix: String,
    file_type: String,
}

impl ConfigBuilder {
    pub closed spec fn spec_diary_path(&self) -> Option<Seq<char>> {
        optional_text(self.diary_path)
    }

    pub closed spec fn spec_prefix(&self) -> Seq<char> {
        self.prefix@
    }

    pub closed spec fn spec_file_type(&self) -> Seq<char> {
        self.file_type@
    }

    fn new() -> (r: Self)
        ensures
            r.spec_diary_path() is None,
            r.spec_prefix() == "diary"@,
            r.spec_file_type() == "md"@,
    {
        Self { diary_path: None, prefix: String::from_str("diary"), file_type: String::from_str("md") }
    }

    pub fn diary_path(self, diary_path: String) -> (r: Self)
        ensures
            r.spec_diary_path() == Some(diary_path@),
            r.spec_prefix() == self.spec_prefix(),
            r.spec_file_type() == self.spec_file_type(),
    {
        let mut builder = self;
        builder.diary_path = Some(diary_path);
        builder
    }

    pub fn prefix(self, prefix: &str) -> (r: Self)
        ensures
            r.spec_diary_path() == self.spec_diary_path(),
            r.spec_prefix() == prefix@,
            r.spec_file_type() == self.spec_file_type(),
    {
        let mut builder = self;
        builder.prefix = prefix.to_owned();
        builder
    }

    pub fn file_type(self, file_type: &str) -> (r: Self)
        ensures
            r.spec_diary_path() == self.spec_diary_path(),
            r.spec_prefix() == self.spec_prefix(),
            r.spec_file_type() == file_type@,
    {
        let mut builder = self;
        builder.file_type = file_type.to_owned();
        builder
    }

    pub fn build(self) -> (r: Config)
        ensures
            r.spec_diary_path() == self.spec_diary_path(),
            r.spec_prefix() == self.spec_prefix(),
            r.spec_file_type() == self.spec_file_type(),
    {
        let ConfigBuilder { diary_path, prefix, file_type } = self;
        Config { diary_path, prefix, file_type }
    }
}

/// The settings of a diary: where its folder is, once it has one, the prefix
/// of its file names, and the code of its file type.
pub struct Config {
    diary_path: Option<String>,
    prefix: String,
    file_type: String,
}

impl Config {
    pub closed spec fn spec_diary_path(&self) -> Option<Seq<char>> {
        optional_text(self.diary_path)
    }

    pub closed spec fn spec_prefix(&self) -> Seq<char> {
        self.prefix@
    }

    pub closed spec fn spec_file_type(&self) -> Seq<char> {
        self.file_type@
    }

    pub fn builder() -> (r: ConfigBuilder)
        ensures
            r.spec_diary_path() is None,
            r.spec_prefix() == "diary"@,
            r.spec_file_type() == "md"@,
    {
        ConfigBuilder::new()
    }

    /// The diary folder, or `None` while no diary has been initialised.
    pub fn diary_path(&self) -> (r: &Option<String>)
        ensures
            optional_text(*r) == self.spec_diary_path(),
    {
        &self.diary_path
    }

    pub fn prefix(&self) -> (r: &String)
        ensures
            r@ == self.spec_prefix(),
    {
        &self.prefix
    }

    pub fn file_type(&self) -> (r: &String)
        ensures
            r@ == self.spec_file_type(),
    {
        &self.file_type
    }
}

impl Default for Config {
    /// The settings of a diary that has not been initialised.
    fn default() -> (r: Self)
        ensures
            r.spec_diary_path() is None,
            r.spec_prefix() == "diary"@,
            r.spec_file_type() == "md"@,
    {
        ConfigBuilder::new().build()
    }
}

/// The settings of a diary together with the file they are kept in, when one
/// was named.
pub struct ConfigManager {
    config: Config,
    location: Option<String>,
}

impl ConfigManager {
    pub closed spec fn spec_config(&self) -> &Config {
        &self.config
    }

    pub closed spec fn spec_location(&self) -> Option<Seq<char>> {
        optional_text(self.location)
    }

    pub fn location(&self) -> (r: &Option<String>)
        ensures
            optional_text(*r) == self.spec_location(),
    {
        &self.location
    }

    pub fn config(&self) -> (r: &Config)
        ensures
            r == self.spec_config(),
    {
        &self.config
    }

    /// A manager of the default settings, kept at `location`.
    pub fn with_location(location: Option<String>) -> (r: ConfigManager)
        ensures
            r.spec_location() == optional_text(location),
            r.spec_config().spec_diary_path() is None,
            r.spec_config().spec_prefix() == "diary"@,
            r.spec_config().spec_file_type() == "md"@,
    {
        ConfigManager { config: Config::default(), location }
    }

    /// The same location with other settings.
    pub fn update_config(self, config: Config) -> (r: ConfigManager)
        ensures
            r.spec_location() == self.spec_location(),
            r.spec_config() == &config,
    {
        let mut manager = self;
        manager.config = config;
        manager
    }
}

} // verus!
