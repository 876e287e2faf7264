use vstd::prelude::*;

verus! {

/// Configuration of one project: where its schema comes from and where its
/// generated module goes.
#[derive(Debug, PartialEq)]
pub struct SahihConfig {
    pub output: SahihOutputConfig,
    pub input: SahihInputConfig,
}

#[derive(Debug, PartialEq)]
pub struct SahihOutputConfig {
    pub target: String,
    pub overwrite: bool,
}

#[derive(Debug, PartialEq)]
pub struct SahihInputConfig {
    pub target: String,
    pub from_url: bool,
}

/// Management of the configuration file itself; the front end implements
/// it over the file system.
pub trait ConfigManagement {
    fn create_config_file(&self) -> std::io::Result<()>;

    fn exists_config_file(&self) -> bool;
}

/// The loaded configuration: every project by name, in the order the
/// loader delivered.
#[derive(Debug)]
pub struct ConfigManager {
    pub projects: Vec<(String, SahihConfig)>,
}

} // verus!
