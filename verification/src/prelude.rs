//! Convenience re-exports of the crate's container and guard types.

pub use crate::runtime::secret::{RTExposedSecret, RTSecret, SecrecySecret};
pub use crate::runtime::secret_sync::RTSyncSecret;
pub use crate::secret::{ExposedSecret, Secret};
pub use crate::types::NumericalZeroSizedType;
