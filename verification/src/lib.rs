//! Host-side configuration and validation logic of an exchange-correlation
//! functional evaluator: variable layouts, evaluation modes, output lengths,
//! dependency aggregation and the launch layouts used by the kernels.

pub mod dependency;
pub mod vars;
pub mod functional_id;
pub mod error;
pub mod taylor;
pub mod dispatch;
pub mod functional;
pub mod laws;
pub mod monomial;
pub mod launch_plan;
pub mod names;
pub mod settings;
