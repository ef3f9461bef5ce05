//! Face dataset extraction: the region filter, the padded crop box, the
//! batch driver's target bookkeeping and the names of saved crops.
pub mod batch;
pub mod crop;
pub mod error;
pub mod model;
pub mod naming;
pub mod region;
