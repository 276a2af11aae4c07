//! Scenes as flat lists of records that name each other by identifier.

pub mod codec_laws;
pub mod decimal;
pub mod decode;
pub mod encode;
pub mod entry;
pub mod error;
pub mod export;
pub mod hit_able;
pub mod id;
pub mod json;
pub mod laws;
pub mod loader;
pub mod material;
pub mod resolve;
pub mod round_trip;
pub mod scene;
pub mod sharing;
pub mod value;

pub use self::error::{Kind, Malformation, Role, SceneError};
pub use self::hit_able::FlipNormals;
pub use self::id::{IdConstructor, IdReference};
pub use self::scene::{DeserializeOptions, RayTracingObject, Scene};
