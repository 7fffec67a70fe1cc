//! The serializable mirrors of a node's state, gathered in one place.

pub use crate::serde_log::SerdeRaftLog;
pub use crate::serde_messages::{
    SerdeConfState, SerdeEntry, SerdeHardState, SerdeMessage, SerdeSnapshot,
    SerdeSnapshotMetadata,
};
pub use crate::serde_node::{SerdeRaft, SerdeRaftCore, SerdeRawNode};
pub use crate::serde_state::{
    SerdeConfig, SerdeReadIndexStatus, SerdeReadOnly, SerdeReadOnlyOption, SerdeReadState,
    SerdeReadyRecord, SerdeSoftState, SerdeStateRole, SerdeUncommittedState,
};
pub use crate::serde_tracker::{
    SerdeConfiguration, SerdeInflights, SerdeJointConfig, SerdeProgress, SerdeProgressState,
    SerdeProgressTracker,
};
