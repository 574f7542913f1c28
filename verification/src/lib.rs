//! Verified election registry: user sign-up with administrator approval,
//! elections with an enrolment queue, a lifecycle of stages and vote counting.
pub mod cuenta;
pub mod texto;
pub mod fecha;
pub mod mensajes;
pub mod eleccion;
pub mod usuario;
pub mod sistema;
pub mod leyes;

pub use cuenta::AccountId;
pub use eleccion::{CandidatoConteo, Eleccion, ESTADO_ELECCION, TIPO_DE_USUARIO, Votante};
pub use sistema::TrabajoFinal;
pub use usuario::Usuario;
