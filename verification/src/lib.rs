//! Field-level synchronization primitives for a networked state-replication
//! engine: a fixed-capacity dirty-bit mask recording which fields of a
//! replicated component still need to be sent, and a family of capability
//! wrappers giving replication code uniform read or read/write access to a
//! component value.

pub mod component_ref;
pub mod state_mask;

pub use crate::component_ref::ComponentDynMut;
pub use crate::component_ref::ComponentDynMutTrait;
pub use crate::component_ref::ComponentDynRef;
pub use crate::component_ref::ComponentDynRefTrait;
pub use crate::component_ref::ComponentMut;
pub use crate::component_ref::ComponentMutTrait;
pub use crate::component_ref::ComponentRef;
pub use crate::component_ref::ComponentRefTrait;
pub use crate::component_ref::OwnedComponent;
pub use crate::component_ref::OwnedReplicatedValue;
pub use crate::component_ref::ProtocolType;
pub use crate::component_ref::ReplicateSafe;
pub use crate::component_ref::ReplicatedValue;
pub use crate::state_mask::StateMask;
