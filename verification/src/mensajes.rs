//! The texts that the contract answers with.
use vstd::prelude::*;

verus! {

// Refusals and confirmations of the administration of users.
pub const NO_ES_ADMINISTRADOR: &'static str = "No eres el administrador.";
pub const USUARIO_NO_REGISTRADO: &'static str =
    "No estás registrado en el sistema. Espera a que te acepten en el mismo o realiza la solicitud.";
pub const REGISTRO_NO_ACTIVADO: &'static str = "El registro todavía no está activado.";
pub const ADMINISTRADOR_NO_SE_REGISTRA: &'static str =
    "Eres el administrador, no puedes registrarte.";
pub const SOLICITUD_YA_RECHAZADA: &'static str = "Tu solicitud de registro ya fue rechazada.";
pub const YA_REGISTRADO: &'static str = "Ya estás registrado como usuario.";
pub const YA_PENDIENTE: &'static str = "Ya estás en la cola de usuarios pendientes.";
pub const REGISTRO_EXITOSO: &'static str =
    "Registro exitoso. Se te añadió en la cola de usuarios pendientes.";
pub const NO_HAY_PENDIENTES: &'static str = "No hay usuarios pendientes.";
pub const USUARIO_AGREGADO: &'static str = "Usuario agregado exitosamente.";
pub const USUARIO_RECHAZADO: &'static str = "Usuario rechazado exitosamente.";
pub const NO_HAY_USUARIO_CON_ID: &'static str = "No hay usuarios con tal id.";
pub const REGISTRO_YA_ACTIVADO: &'static str = "El registro ya está activado.";
pub const REGISTRO_ACTIVADO: &'static str = "Se activó el registro para los usuarios.";
pub const REGISTRO_YA_DESACTIVADO: &'static str = "El registro ya está desactivado.";
pub const REGISTRO_DESACTIVADO: &'static str = "Se desactivó el registro para los usuarios.";
pub const ADMINISTRADOR_TRANSFERIDO: &'static str =
    "Se transfirió el rol de administrador correctamente.";

// Creation and lifecycle of elections.
pub const FECHA_INICIAL_INVALIDA: &'static str =
    "Error en el formato de la fecha inicial. Formato: dd-mm-YYYY hh:mm";
pub const FECHA_FINAL_INVALIDA: &'static str =
    "Error en el formato de la fecha final. Formato: dd-mm-YYYY hh:mm";
pub const OVERFLOW_ID_ELECCION: &'static str =
    "Ocurrio un overflow al calcular la ID de la eleccion.";
pub const ELECCION_CREADA: &'static str = "Eleccion creada exitosamente. Id de la elección: ";
pub const ELECCION_NO_EXISTE: &'static str = "La eleccion enviada no existe!";
pub const EN_FECHA_DE_VOTACION: &'static str = "La eleccion se encuentra en la fecha de votacion!";
pub const YA_EN_ESTADO_CERRADA: &'static str =
    "La eleccion ya se encuantra en el estado correspondiente!";
pub const YA_EN_ESTADO: &'static str = "La eleccion ya se encuentra en el estado correspondiente!";
pub const EN_ESTADO_DE_VOTACION: &'static str =
    "La eleccion se encuentra en el estado de votacion!";
pub const ELECCION_YA_CERRO: &'static str = "La eleccion ya cerro!";
pub const ELECCION_CERRADA: &'static str = "Eleccion CERRADA exitosamente. Id de la elección: ";
pub const ELECCION_ABIERTA: &'static str = "Eleccion ABIERTA exitosamente. Id de la elección: ";
pub const NO_ES_FECHA_DE_INICIO: &'static str = "No es la fecha propuesta, no puedes iniciarla.";
pub const YA_FINALIZO_NO_INICIA: &'static str = "Ya finalizo, no puedes iniciarla.";
pub const ELECCION_INICIADA: &'static str = "Eleccion INICIADA exitosamente. Id de la elección: ";
pub const NO_ES_FECHA_DE_FIN: &'static str = "No es la fecha propuesta, no puedes finalizarla.";
pub const ELECCION_FINALIZADA: &'static str =
    "Eleccion FINALIZADA exitosamente. Id de la elección: ";
pub const ELECCION_NO_FINALIZO: &'static str = "La eleccion no finalizo aun!";

// Enrolment and votes in an election.
pub const ELECCION_NO_ENCONTRADA: &'static str = "Eleccion no encontrada";
pub const NO_EXISTE_ELECCION_CON_ID: &'static str = "No existe una elección con ese id.";
pub const INSCRIPCION_NO_ABIERTA: &'static str =
    "La eleccion no esta abierta, no te puedes registrar.";
pub const FINALIZO_NO_INSCRIBE: &'static str = "La elección ya finalizó, no te puedes registrar.";
pub const COMENZO_NO_INSCRIBE: &'static str =
    "La votación en la elección ya comenzó, no te puedes registrar.";
pub const FINALIZO_NO_VOTA: &'static str = "La elección ya finalizó, no puedes votar.";
pub const NO_INICIO_NO_VOTA: &'static str = "La eleccion no inicio, no puedes votar.";
pub const YA_ES_VOTANTE: &'static str = "Ya estás registrado como votante.";
pub const YA_ES_CANDIDATO: &'static str = "Ya has sido aceptado como candidato";
pub const INSCRIPCION_PENDIENTE: &'static str =
    "Ingresó a la elección correctamente Pendiente de aprobacion del Administrador";
pub const SOLICITUD_RECHAZADA: &'static str = "Tu solicitud de registro fue rechazada.";
pub const EN_COLA_DE_PENDIENTES: &'static str = "Estás en la cola de usuarios pendientes.";
pub const NO_ES_VOTANTE: &'static str = "No estás registrado como votante.";
pub const ES_CANDIDATO: &'static str = "Has sido aceptado como candidato";
pub const NO_EXISTE_CANDIDATO_CON_ESE_ID: &'static str = "No existe un candidato con ese id.";
pub const NO_EXISTE_USUARIO_CANDIDATO: &'static str = "No existe un usuario/candidato con ese id.";
pub const NO_EXISTE_CANDIDATO_CON_ESTE_ID: &'static str = "No existe un candidato con este id.";
pub const NO_REGISTRADO_EN_ELECCION: &'static str = "No estás registrado en la elección.";
pub const YA_VOTASTE: &'static str = "No se realizó el voto porque ya votaste anteriormente.";
pub const OVERFLOW_VOTO: &'static str = "Se produjo un overflow al intentar sumar el voto.";
pub const VOTO_EMITIDO: &'static str = "Voto emitido exitosamente.";
pub const OVERFLOW_ID_CANDIDATO: &'static str =
    "Ocurrio un overflow al calcular la ID del candidato.";

// Pieces of the reports.
pub const ETIQUETA_NOMBRE: &'static str = "Nombre: ";
pub const ETIQUETA_APELLIDO: &'static str = "\nApellido: ";
pub const ETIQUETA_DNI: &'static str = "\nDNI: ";
pub const ETIQUETA_ID: &'static str = "ID: ";
pub const ETIQUETA_FECHA_INICIO: &'static str = "\nfecha_inicio: ";
pub const ETIQUETA_FECHA_FINAL: &'static str = "\nfecha_final: ";
pub const ESTADO_CERRADA: &'static str = "\nEstado: CERRADA";
pub const ESTADO_ABIERTA: &'static str = "\nEstado: ABIERTA";
pub const ESTADO_INICIADA: &'static str = "\nEstado: INICIADA";
pub const ESTADO_FINALIZADA: &'static str = "\nEstado: FINALIZADA";
pub const SEPARADOR: &'static str = "\n\n";
pub const ETIQUETA_ID_CANDIDATO: &'static str = "\nId candidato: ";
pub const ETIQUETA_ID_USUARIO: &'static str = "\nId usuario: ";
pub const ETIQUETA_VOTOS_RECIBIDOS: &'static str = "\nVotos recibidos: ";
pub const ETIQUETA_VOTO_EMITIDO: &'static str = "\nVotos emitido: ";
pub const ETIQUETA_USUARIO: &'static str = "Usuario: ";
pub const QUIERE_SER_VOTANTE: &'static str = "\nEl usuario quiere ser un VOTANTE";
pub const QUIERE_SER_CANDIDATO: &'static str = "\nEl usuario quiere ser un CANDIDATO";

} // verus!
