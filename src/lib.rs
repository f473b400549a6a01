//! Ledger for permissioned elections: user admission, election registry,
//! enrollment, time-gated voting with overflow-checked tallies, cached
//! results, and the reports derived from them.

pub mod eleccion;
pub mod errores;
pub mod fechas;
pub mod identidad;
pub mod leyes;
pub mod reporte;
pub mod trabajo_final;
