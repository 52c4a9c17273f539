//! Monitoring of continuous integration on a forge.
//!
//! The entity graph and the stores that hold it, the reconciliation of what a
//! forge reports into a store, the migration of a store into another, the
//! layout of content-addressed blobs, and the decisions of the task
//! scheduler.

pub mod blob;
pub mod data;
pub mod forge;
pub mod gitlab;
pub mod lookup;
pub mod migrate;
pub mod objects;
pub mod scheduler;
pub mod testing;
pub mod text;
pub mod time;

pub use self::blob::filesystem::Filesystem;
pub use self::blob::filesystem::FilesystemError;
pub use self::blob::filesystem::Sharding;
pub use self::blob::filesystem::ShardingError;
pub use self::blob::BlobPersistence;
pub use self::blob::BlobPersistenceError;
pub use self::blob::BlobPersistenceVerifyError;
pub use self::forge::ForgeCore;
pub use self::forge::ForgeError;
pub use self::forge::ForgeTask;
pub use self::forge::ForgeTaskOutcome;
pub use self::forge::MaintenanceTask;
pub use self::forge::RunnerHostData;
pub use self::gitlab::errors::forge_error;
pub use self::gitlab::forge::GitlabForge;
pub use self::gitlab::lookup::GitlabLookup;
pub use self::lookup::DiscoverableLookup;
pub use self::lookup::Lookup;
pub use self::migrate::errors::MigrationError;
pub use self::migrate::objects::migrate_object_store;
pub use self::objects::arc::ArcIndex;
pub use self::objects::arc::ArcLookup;
pub use self::objects::vec::persist::VecStore;
pub use self::objects::vec::persist::VecStoreError;
pub use self::objects::vec::VecIndex;
pub use self::objects::vec::VecLookup;
pub use self::testing::TestIndex;
pub use self::testing::TestLookup;
pub use self::time::Timestamp;
