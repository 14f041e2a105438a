//! The value tree of the datastore's wire API and its scalar wrappers.

pub mod blob;
pub mod conversions;
pub mod decimal;
pub mod double;
pub mod integer;
pub mod key;
pub mod value;

pub use self::blob::Blob;
pub use self::double::{Double, LatLng, Timestamp};
pub use self::integer::{FixedWidth, Int};
pub use self::key::{Key, KeyModel, PartitionId, PartitionIdModel, PathElement, PathElementModel};
pub use self::value::{ArrayValue, Entity, Value, ValueModel};
