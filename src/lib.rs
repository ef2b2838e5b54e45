//! Relations, setoids and binary operations arranged into the classical
//! algebraic hierarchy (magma, semigroup, monoid, group, abelian group),
//! with law checks over sample elements whose results are specified exactly.
pub mod addition;
pub mod equalities;
pub mod instances;
pub mod operation;
pub mod relation;
pub mod setoid;
pub mod structure;
pub mod wrapper;
