//! A client core for the Granite approval service: the wire contract, the
//! header policy, the destructive-intent taxonomy and the request/decision
//! logic of the client, each with a contract that its code is proved to meet.

pub mod client;
pub mod error;
pub mod headers;
pub mod intent;
pub mod model;
pub mod text;

pub use client::{ActingUser, Auth, AwaitConfig, Decision, GraniteClient, Span};
pub use error::GraniteError;
pub use intent::{DestructiveIntent, PurgeKind};
pub use model::{
    ApprovalGrant, ApprovalGrantStatus, ApprovalRequest, ApprovalRequestStatus, ApprovalRequestType,
    ApprovalRiskLevel, CreateApprovalRequest, Environment, GrantVerification, Uuid, VerifyGrantRequest,
};
