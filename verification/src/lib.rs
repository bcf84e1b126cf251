//! A verified toolkit for driving the CodeQL CLI: language registry,
//! query-pack specifier parsing, pack resolution, and database lifecycle
//! management with deterministic command construction.

pub mod cli;
pub mod database;
pub mod database_handler;
pub mod databases;
pub mod errors;
pub mod extractors;
pub mod languages;
pub mod pack_handler;
pub mod packs;
pub mod queries;
pub mod repository;
pub mod supplychain;
pub mod text;
pub mod version;

pub use cli::CodeQL;
pub use cli::CodeQLBuilder;
pub use database::CodeQLDatabase;
pub use database::CodeQLDatabaseBuilder;
pub use database::CodeQLDatabaseConfig;
pub use database_handler::CodeQLDatabaseHandler;
pub use databases::CodeQLDatabases;
pub use errors::GHASError;
pub use extractors::BuildMode;
pub use extractors::CodeQLExtractor;
pub use languages::CodeQLLanguage;
pub use languages::CodeQLLanguages;
pub use pack_handler::CodeQLPackHandler;
pub use packs::CodeQLPack;
pub use packs::PackProbe;
pub use packs::CodeQLPackType;
pub use packs::CodeQLPacks;
pub use packs::PackYaml;
pub use packs::PackYamlLock;
pub use packs::PackYamlLockDependency;
pub use queries::CodeQLQueries;
pub use repository::Repository;
pub use repository::RepositoryBuilder;
pub use supplychain::License;
pub use supplychain::Licenses;
pub use version::CodeQLVersion;
