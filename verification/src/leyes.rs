//! What every message of the registry keeps, and what one message owes to the next.
use vstd::prelude::*;

use crate::cuenta::AccountId;
use crate::eleccion::{
    CandidatoConteo, EleccionVista, ESTADO_ELECCION, TIPO_DE_USUARIO, Votante,
    es_primer_votante, lema_existe_primer_votante, primer_votante,
};
use crate::mensajes;
use crate::cuenta::hex_minusculas;
use crate::sistema::{informe_candidatos, informe_votantes, TrabajoFinalVista};
use crate::texto::{decimal, Respuesta};
use crate::usuario::{contiene_usuario, UsuarioVista};

verus! {

/// A message that may change the registry, with its arguments. The caller and the
/// block time are those that the runtime gives the message.
pub enum Operacion {
    Registrarse { caller: AccountId, nombre: Seq<char>, apellido: Seq<char>, dni: Seq<char> },
    ProcesarSiguienteUsuarioPendiente { caller: AccountId, aceptar_usuario: bool },
    ActivarRegistro { caller: AccountId },
    DesactivarRegistro { caller: AccountId },
    CrearEleccion { caller: AccountId, fecha_inicial: Option<i64>, fecha_final: Option<i64> },
    CerrarEleccion { caller: AccountId, eleccion_id: u64, block_timestamp: u64 },
    AbrirEleccion { caller: AccountId, eleccion_id: u64, block_timestamp: u64 },
    IniciarEleccion { caller: AccountId, eleccion_id: u64, block_timestamp: u64 },
    FinalizarEleccion { caller: AccountId, eleccion_id: u64, block_timestamp: u64 },
    ProcesarUsuariosEnUnaEleccion { caller: AccountId, eleccion_id: u64, aceptar_usuario: bool },
    InscribirUsuarioEnEleccion {
        caller: AccountId,
        eleccion_id: u64,
        tipo: TIPO_DE_USUARIO,
        block_timestamp: u64,
    },
    VotarACandidato {
        caller: AccountId,
        eleccion_id: u64,
        candidato_id: u64,
        block_timestamp: u64,
    },
    TransferirAdministrador { caller: AccountId, id: AccountId },
}

/// What a message leaves and answers (the messages that only read leave the registry
/// as it was, as their own contracts state).
pub open spec fn aplicar(s: TrabajoFinalVista, op: Operacion) -> (TrabajoFinalVista, Respuesta) {
    match op {
        Operacion::Registrarse { caller, nombre, apellido, dni } => s.registrarse(
            caller,
            nombre,
            apellido,
            dni,
        ),
        Operacion::ProcesarSiguienteUsuarioPendiente { caller, aceptar_usuario } =>
            s.procesar_siguiente_usuario_pendiente(caller, aceptar_usuario),
        Operacion::ActivarRegistro { caller } => s.activar_registro(caller),
        Operacion::DesactivarRegistro { caller } => s.desactivar_registro(caller),
        Operacion::CrearEleccion { caller, fecha_inicial, fecha_final } => s.crear_eleccion(
            caller,
            fecha_inicial,
            fecha_final,
        ),
        Operacion::CerrarEleccion { caller, eleccion_id, block_timestamp } => s.cerrar_eleccion(
            caller,
            eleccion_id,
            block_timestamp,
        ),
        Operacion::AbrirEleccion { caller, eleccion_id, block_timestamp } => s.abrir_eleccion(
            caller,
            eleccion_id,
            block_timestamp,
        ),
        Operacion::IniciarEleccion { caller, eleccion_id, block_timestamp } => s.iniciar_eleccion(
            caller,
            eleccion_id,
            block_timestamp,
        ),
        Operacion::FinalizarEleccion { caller, eleccion_id, block_timestamp } =>
            s.finalizar_eleccion(caller, eleccion_id, block_timestamp),
        Operacion::ProcesarUsuariosEnUnaEleccion { caller, eleccion_id, aceptar_usuario } =>
            s.procesar_usuarios_en_una_eleccion(caller, eleccion_id, aceptar_usuario),
        Operacion::InscribirUsuarioEnEleccion { caller, eleccion_id, tipo, block_timestamp } =>
            s.inscribir_usuario_en_eleccion(caller, eleccion_id, tipo, block_timestamp),
        Operacion::VotarACandidato { caller, eleccion_id, candidato_id, block_timestamp } =>
            s.votar_a_candidato(caller, eleccion_id, candidato_id, block_timestamp),
        Operacion::TransferirAdministrador { caller, id } => s.transferir_administrador(
            caller,
            id,
        ),
    }
}

/// The votes counted for the candidates.
pub open spec fn total_votos(c: Seq<CandidatoConteo>) -> int
    decreases c.len(),
{
    if c.len() == 0 {
        0
    } else {
        total_votos(c.drop_last()) + c.last().votos_totales
    }
}

/// The voters that cast their vote.
pub open spec fn votos_emitidos(v: Seq<Votante>) -> int
    decreases v.len(),
{
    if v.len() == 0 {
        0
    } else {
        votos_emitidos(v.drop_last()) + if v.last().voto_emitido {
            1int
        } else {
            0int
        }
    }
}

/// Every account that takes part in the election, or asked to, or was turned down by
/// it, is an accepted user.
pub open spec fn participantes_registrados(e: EleccionVista, usuarios: Seq<UsuarioVista>) -> bool {
    &&& forall|i: int|
        0 <= i < e.candidatos.len() ==> contiene_usuario(usuarios, #[trigger] e.candidatos[i].usuario_id)
    &&& forall|i: int|
        0 <= i < e.votantes.len() ==> contiene_usuario(usuarios, #[trigger] e.votantes[i].usuario_id)
    &&& forall|i: int|
        0 <= i < e.usuarios_pendientes.len() ==> contiene_usuario(
            usuarios,
            #[trigger] e.usuarios_pendientes[i].0,
        )
    &&& forall|i: int|
        0 <= i < e.usuarios_rechazados.len() ==> contiene_usuario(
            usuarios,
            #[trigger] e.usuarios_rechazados[i],
        )
}

/// An election is well formed: its candidates are numbered from 1 in order, the votes
/// counted equal the votes cast, and only accepted users take part in it.
pub open spec fn eleccion_bien_formada(e: EleccionVista, usuarios: Seq<UsuarioVista>) -> bool {
    &&& forall|i: int| 0 <= i < e.candidatos.len() ==> #[trigger] e.candidatos[i].id == i + 1
    &&& total_votos(e.candidatos) == votos_emitidos(e.votantes)
    &&& participantes_registrados(e, usuarios)
}

/// The registry is well formed: its elections are numbered from 1 in order, and each
/// is well formed.
pub open spec fn bien_formado(s: TrabajoFinalVista) -> bool {
    forall|k: int|
        0 <= k < s.elecciones.len() ==> {
            &&& (#[trigger] s.elecciones[k]).id == k + 1
            &&& eleccion_bien_formada(s.elecciones[k], s.usuarios)
        }
}

proof fn lema_total_votos_update(c: Seq<CandidatoConteo>, i: int, x: CandidatoConteo)
    requires
        0 <= i < c.len(),
    ensures
        total_votos(c.update(i, x)) == total_votos(c) - c[i].votos_totales + x.votos_totales,
    decreases c.len(),
{
    if i == c.len() - 1 {
        assert(c.update(i, x).drop_last() =~= c.drop_last());
    } else {
        lema_total_votos_update(c.drop_last(), i, x);
        assert(c.update(i, x).drop_last() =~= c.drop_last().update(i, x));
    }
}

proof fn lema_total_votos_push(c: Seq<CandidatoConteo>, x: CandidatoConteo)
    ensures
        total_votos(c.push(x)) == total_votos(c) + x.votos_totales,
{
    assert(c.push(x).drop_last() =~= c);
}

proof fn lema_votos_emitidos_update(v: Seq<Votante>, i: int, x: Votante)
    requires
        0 <= i < v.len(),
    ensures
        votos_emitidos(v.update(i, x)) == votos_emitidos(v) - (if v[i].voto_emitido {
            1int
        } else {
            0int
        }) + (if x.voto_emitido {
            1int
        } else {
            0int
        }),
    decreases v.len(),
{
    if i == v.len() - 1 {
        assert(v.update(i, x).drop_last() =~= v.drop_last());
    } else {
        lema_votos_emitidos_update(v.drop_last(), i, x);
        assert(v.update(i, x).drop_last() =~= v.drop_last().update(i, x));
    }
}

proof fn lema_votos_emitidos_push(v: Seq<Votante>, x: Votante)
    ensures
        votos_emitidos(v.push(x)) == votos_emitidos(v) + (if x.voto_emitido {
            1int
        } else {
            0int
        }),
{
    assert(v.push(x).drop_last() =~= v);
}

/// Participation stays well founded when the list of users only grows.
proof fn lema_participantes_crece(
    e: EleccionVista,
    u1: Seq<UsuarioVista>,
    u2: Seq<UsuarioVista>,
)
    requires
        participantes_registrados(e, u1),
        forall|id: AccountId| contiene_usuario(u1, id) ==> contiene_usuario(u2, id),
    ensures
        participantes_registrados(e, u2),
{
}

/// Appending a user keeps every user found before.
proof fn lema_contiene_push(u: Seq<UsuarioVista>, x: UsuarioVista)
    ensures
        forall|id: AccountId| contiene_usuario(u, id) ==> contiene_usuario(u.push(x), id),
{
    assert forall|id: AccountId| contiene_usuario(u, id) implies contiene_usuario(u.push(x), id) by {
        let i = choose|i: int| 0 <= i < u.len() && u[i].id == id;
        assert(u.push(x)[i].id == id);
    }
}

/// A vote keeps an election well formed: one voter is marked and one candidate gains
/// one vote.
proof fn lema_votar_bien_formada(
    e: EleccionVista,
    usuarios: Seq<UsuarioVista>,
    votante_id: AccountId,
    candidato_id: u64,
)
    requires
        eleccion_bien_formada(e, usuarios),
    ensures
        eleccion_bien_formada(e.votar_candidato(votante_id, candidato_id).0, usuarios),
{
    let (e2, r) = e.votar_candidato(votante_id, candidato_id);
    if r is Ok {
        let k = choose|k: int| 0 <= k < e.votantes.len() && e.votantes[k].usuario_id == votante_id;
        lema_existe_primer_votante(e.votantes, votante_id, k);
        let i = primer_votante(e.votantes, votante_id);
        let c = candidato_id - 1;
        let cand = e.candidatos[c];
        let nuevo = CandidatoConteo { votos_totales: (cand.votos_totales + 1) as u64, ..cand };
        lema_total_votos_update(e.candidatos, c, nuevo);
        lema_votos_emitidos_update(
            e.votantes,
            i,
            Votante { usuario_id: votante_id, voto_emitido: true },
        );
        assert forall|j: int| 0 <= j < e2.candidatos.len() implies #[trigger] e2.candidatos[j].id
            == j + 1 by {
            assert(e.candidatos[j].id == j + 1);
        }
        assert forall|j: int| 0 <= j < e2.candidatos.len() implies contiene_usuario(
            usuarios,
            #[trigger] e2.candidatos[j].usuario_id,
        ) by {
            assert(contiene_usuario(usuarios, e.candidatos[j].usuario_id));
        }
        assert forall|j: int| 0 <= j < e2.votantes.len() implies contiene_usuario(
            usuarios,
            #[trigger] e2.votantes[j].usuario_id,
        ) by {
            assert(contiene_usuario(usuarios, e.votantes[j].usuario_id));
        }
    }
}

/// Processing the head of the queue of an election keeps it well formed.
proof fn lema_procesar_bien_formada(
    e: EleccionVista,
    usuarios: Seq<UsuarioVista>,
    aceptar_usuario: bool,
)
    requires
        eleccion_bien_formada(e, usuarios),
    ensures
        eleccion_bien_formada(e.procesar_siguiente_usuario_pendiente(aceptar_usuario).0, usuarios),
{
    let (e2, r) = e.procesar_siguiente_usuario_pendiente(aceptar_usuario);
    if e.usuarios_pendientes.len() > 0 {
        let (u, t) = e.usuarios_pendientes[0];
        assert(contiene_usuario(usuarios, e.usuarios_pendientes[0].0));
        assert forall|j: int| 0 <= j < e2.usuarios_pendientes.len() implies contiene_usuario(
            usuarios,
            #[trigger] e2.usuarios_pendientes[j].0,
        ) by {
            assert(e2.usuarios_pendientes[j] == e.usuarios_pendientes[j + 1]);
        }
        if aceptar_usuario {
            match t {
                TIPO_DE_USUARIO::VOTANTE => {
                    lema_votos_emitidos_push(
                        e.votantes,
                        Votante { usuario_id: u, voto_emitido: false },
                    );
                    assert forall|j: int| 0 <= j < e2.votantes.len() implies contiene_usuario(
                        usuarios,
                        #[trigger] e2.votantes[j].usuario_id,
                    ) by {
                        if j < e.votantes.len() {
                            assert(e2.votantes[j] == e.votantes[j]);
                        }
                    }
                },
                TIPO_DE_USUARIO::CANDIDATO => {
                    if e.candidatos.len() < u64::MAX {
                        let x = CandidatoConteo {
                            id: (e.candidatos.len() + 1) as u64,
                            usuario_id: u,
                            votos_totales: 0,
                        };
                        lema_total_votos_push(e.candidatos, x);
                        assert forall|j: int| 0 <= j < e2.candidatos.len() implies #[trigger] e2.candidatos[j].id
                            == j + 1 by {
                            if j < e.candidatos.len() {
                                assert(e2.candidatos[j] == e.candidatos[j]);
                            }
                        }
                        assert forall|j: int| 0 <= j < e2.candidatos.len() implies contiene_usuario(
                            usuarios,
                            #[trigger] e2.candidatos[j].usuario_id,
                        ) by {
                            if j < e.candidatos.len() {
                                assert(e2.candidatos[j] == e.candidatos[j]);
                            }
                        }
                    }
                },
            }
        } else {
            assert forall|j: int| 0 <= j < e2.usuarios_rechazados.len() implies contiene_usuario(
                usuarios,
                #[trigger] e2.usuarios_rechazados[j],
            ) by {
                if j < e.usuarios_rechazados.len() {
                    assert(e2.usuarios_rechazados[j] == e.usuarios_rechazados[j]);
                }
            }
        }
    }
}

/// A change of stage keeps an election well formed.
proof fn lema_estado_bien_formada(
    e: EleccionVista,
    usuarios: Seq<UsuarioVista>,
    estado: ESTADO_ELECCION,
)
    requires
        eleccion_bien_formada(e, usuarios),
    ensures
        eleccion_bien_formada(e.con_estado(estado), usuarios),
{
}

/// Replacing an election by a well formed one with the same number keeps the registry
/// well formed.
proof fn lema_con_eleccion(s: TrabajoFinalVista, eleccion_id: u64, e: EleccionVista)
    requires
        bien_formado(s),
        s.existe_eleccion(eleccion_id),
        e.id == s.eleccion(eleccion_id).id,
        eleccion_bien_formada(e, s.usuarios),
    ensures
        bien_formado(s.con_eleccion(eleccion_id, e)),
{
    let s2 = s.con_eleccion(eleccion_id, e);
    assert forall|k: int| 0 <= k < s2.elecciones.len() implies {
        &&& (#[trigger] s2.elecciones[k]).id == k + 1
        &&& eleccion_bien_formada(s2.elecciones[k], s2.usuarios)
    } by {
        assert(s.elecciones[k].id == k + 1);
        assert(eleccion_bien_formada(s.elecciones[k], s.usuarios));
    }
}

/// The new registry is well formed.
pub proof fn ley_estado_inicial(administrador: AccountId)
    ensures
        bien_formado(
            TrabajoFinalVista {
                administrador: administrador,
                registro_activado: false,
                usuarios: Seq::empty(),
                usuarios_pendientes: Seq::empty(),
                usuarios_rechazados: Seq::empty(),
                elecciones: Seq::empty(),
            },
        ),
{
}

/// Every message keeps the registry well formed: elections and candidates stay
/// numbered from 1 in order, each election counts exactly as many votes as its
/// voters cast, and only accepted users take part in elections.
pub proof fn ley_invariante(s: TrabajoFinalVista, op: Operacion)
    requires
        bien_formado(s),
    ensures
        bien_formado(aplicar(s, op).0),
{
    let s2 = aplicar(s, op).0;
    match op {
        Operacion::ProcesarSiguienteUsuarioPendiente { caller, aceptar_usuario } => {
            if s.es_administrador(caller) && s.usuarios_pendientes.len() > 0 && aceptar_usuario {
                lema_contiene_push(s.usuarios, s.usuarios_pendientes[0]);
                assert forall|k: int| 0 <= k < s2.elecciones.len() implies {
                    &&& (#[trigger] s2.elecciones[k]).id == k + 1
                    &&& eleccion_bien_formada(s2.elecciones[k], s2.usuarios)
                } by {
                    lema_participantes_crece(s.elecciones[k], s.usuarios, s2.usuarios);
                }
            }
        },
        Operacion::CrearEleccion { caller, fecha_inicial, fecha_final } => {
            assert forall|k: int| 0 <= k < s2.elecciones.len() implies {
                &&& (#[trigger] s2.elecciones[k]).id == k + 1
                &&& eleccion_bien_formada(s2.elecciones[k], s2.usuarios)
            } by {
                if k < s.elecciones.len() {
                    assert(s2.elecciones[k] == s.elecciones[k]);
                }
            }
        },
        Operacion::CerrarEleccion { caller, eleccion_id, block_timestamp } => {
            if s.existe_eleccion(eleccion_id) {
                lema_estado_bien_formada(s.eleccion(eleccion_id), s.usuarios, ESTADO_ELECCION::CERRADA);
                lema_con_eleccion(s, eleccion_id, s.eleccion(eleccion_id).con_estado(ESTADO_ELECCION::CERRADA));
            }
        },
        Operacion::AbrirEleccion { caller, eleccion_id, block_timestamp } => {
            if s.existe_eleccion(eleccion_id) {
                lema_estado_bien_formada(s.eleccion(eleccion_id), s.usuarios, ESTADO_ELECCION::ABIERTA);
                lema_con_eleccion(s, eleccion_id, s.eleccion(eleccion_id).con_estado(ESTADO_ELECCION::ABIERTA));
            }
        },
        Operacion::IniciarEleccion { caller, eleccion_id, block_timestamp } => {
            if s.existe_eleccion(eleccion_id) {
                lema_estado_bien_formada(s.eleccion(eleccion_id), s.usuarios, ESTADO_ELECCION::INICIADA);
                lema_con_eleccion(s, eleccion_id, s.eleccion(eleccion_id).con_estado(ESTADO_ELECCION::INICIADA));
            }
        },
        Operacion::FinalizarEleccion { caller, eleccion_id, block_timestamp } => {
            if s.existe_eleccion(eleccion_id) {
                lema_estado_bien_formada(s.eleccion(eleccion_id), s.usuarios, ESTADO_ELECCION::FINALIZADA);
                lema_con_eleccion(s, eleccion_id, s.eleccion(eleccion_id).con_estado(ESTADO_ELECCION::FINALIZADA));
            }
        },
        Operacion::ProcesarUsuariosEnUnaEleccion { caller, eleccion_id, aceptar_usuario } => {
            if s.existe_eleccion(eleccion_id) {
                let e = s.eleccion(eleccion_id);
                lema_procesar_bien_formada(e, s.usuarios, aceptar_usuario);
                lema_con_eleccion(s, eleccion_id, e.procesar_siguiente_usuario_pendiente(aceptar_usuario).0);
            }
        },
        Operacion::InscribirUsuarioEnEleccion { caller, eleccion_id, tipo, block_timestamp } => {
            lema_validar_inscripciones(s, eleccion_id, block_timestamp);
            let (s1, v) = s.validar_estado_eleccion_para_inscripciones(eleccion_id, block_timestamp);
            if s.es_usuario_registrado(caller) && v is Ok {
                let e = s1.eleccion(eleccion_id);
                let e2 = EleccionVista {
                    usuarios_pendientes: e.usuarios_pendientes.push((caller, tipo)),
                    ..e
                };
                assert forall|j: int| 0 <= j < e2.usuarios_pendientes.len() implies contiene_usuario(
                    s1.usuarios,
                    #[trigger] e2.usuarios_pendientes[j].0,
                ) by {
                    if j < e.usuarios_pendientes.len() {
                        assert(e2.usuarios_pendientes[j] == e.usuarios_pendientes[j]);
                    }
                }
                lema_con_eleccion(s1, eleccion_id, e2);
            }
        },
        Operacion::VotarACandidato { caller, eleccion_id, candidato_id, block_timestamp } => {
            lema_validar_votaciones(s, eleccion_id, block_timestamp);
            let (s1, v) = s.validar_estado_eleccion_para_votaciones(eleccion_id, block_timestamp);
            if s.es_usuario_registrado(caller) && v is Ok {
                let e = s1.eleccion(eleccion_id);
                lema_votar_bien_formada(e, s1.usuarios, caller, candidato_id);
                lema_con_eleccion(s1, eleccion_id, e.votar_candidato(caller, candidato_id).0);
            }
        },
        _ => {},
    }
}

/// The checks before an enrolment keep the registry well formed.
proof fn lema_validar_inscripciones(s: TrabajoFinalVista, eleccion_id: u64, block_timestamp: u64)
    requires
        bien_formado(s),
    ensures
        bien_formado(s.validar_estado_eleccion_para_inscripciones(eleccion_id, block_timestamp).0),
        s.validar_estado_eleccion_para_inscripciones(eleccion_id, block_timestamp).1 is Ok
            ==> s.existe_eleccion(eleccion_id),
{
    if s.existe_eleccion(eleccion_id) {
        let e = s.eleccion(eleccion_id);
        lema_con_eleccion(s, eleccion_id, e.con_estado(ESTADO_ELECCION::FINALIZADA));
        lema_con_eleccion(s, eleccion_id, e.con_estado(ESTADO_ELECCION::INICIADA));
    }
}

/// The checks before a vote keep the registry well formed.
proof fn lema_validar_votaciones(s: TrabajoFinalVista, eleccion_id: u64, block_timestamp: u64)
    requires
        bien_formado(s),
    ensures
        bien_formado(s.validar_estado_eleccion_para_votaciones(eleccion_id, block_timestamp).0),
        s.validar_estado_eleccion_para_votaciones(eleccion_id, block_timestamp).1 is Ok
            ==> s.existe_eleccion(eleccion_id),
{
    if s.existe_eleccion(eleccion_id) {
        let e = s.eleccion(eleccion_id);
        lema_con_eleccion(s, eleccion_id, e.con_estado(ESTADO_ELECCION::FINALIZADA));
        lema_con_eleccion(s, eleccion_id, e.con_estado(ESTADO_ELECCION::INICIADA));
    }
}

/// The account that sends a message.
pub open spec fn llamador(op: Operacion) -> AccountId {
    match op {
        Operacion::Registrarse { caller, .. } => caller,
        Operacion::ProcesarSiguienteUsuarioPendiente { caller, .. } => caller,
        Operacion::ActivarRegistro { caller } => caller,
        Operacion::DesactivarRegistro { caller } => caller,
        Operacion::CrearEleccion { caller, .. } => caller,
        Operacion::CerrarEleccion { caller, .. } => caller,
        Operacion::AbrirEleccion { caller, .. } => caller,
        Operacion::IniciarEleccion { caller, .. } => caller,
        Operacion::FinalizarEleccion { caller, .. } => caller,
        Operacion::ProcesarUsuariosEnUnaEleccion { caller, .. } => caller,
        Operacion::InscribirUsuarioEnEleccion { caller, .. } => caller,
        Operacion::VotarACandidato { caller, .. } => caller,
        Operacion::TransferirAdministrador { caller, .. } => caller,
    }
}

/// The messages that only the administrator may send.
pub open spec fn reservada_al_administrador(op: Operacion) -> bool {
    match op {
        Operacion::Registrarse { .. } => false,
        Operacion::InscribirUsuarioEnEleccion { .. } => false,
        Operacion::VotarACandidato { .. } => false,
        _ => true,
    }
}

/// A message reserved to the administrator, sent by anyone else, is refused with
/// `NO_ES_ADMINISTRADOR` and changes nothing.
pub proof fn ley_solo_administrador(s: TrabajoFinalVista, op: Operacion)
    requires
        reservada_al_administrador(op),
        !s.es_administrador(llamador(op)),
    ensures
        aplicar(s, op) == (s, Err::<Seq<char>, Seq<char>>(mensajes::NO_ES_ADMINISTRADOR@)),
{
}

/// After the administrator hands the role over, the new account is the only one that
/// holds it.
pub proof fn ley_transferencia(s: TrabajoFinalVista, caller: AccountId, id: AccountId, otro: AccountId)
    requires
        s.es_administrador(caller),
    ensures
        s.transferir_administrador(caller, id).1 is Ok,
        s.transferir_administrador(caller, id).0.es_administrador(otro) <==> otro == id,
{
}

/// Turning sign-up on and then off again gives back the registry as it was.
pub proof fn ley_activar_y_desactivar(s: TrabajoFinalVista, caller: AccountId)
    requires
        s.es_administrador(caller),
        !s.registro_activado,
    ensures
        s.activar_registro(caller).1 is Ok,
        s.activar_registro(caller).0.desactivar_registro(caller).1 is Ok,
        s.activar_registro(caller).0.desactivar_registro(caller).0 == s,
{
}

/// The two registries differ at most in their elections.
pub open spec fn solo_cambian_elecciones(a: TrabajoFinalVista, b: TrabajoFinalVista) -> bool {
    &&& a.administrador == b.administrador
    &&& a.registro_activado == b.registro_activado
    &&& a.usuarios == b.usuarios
    &&& a.usuarios_pendientes == b.usuarios_pendientes
    &&& a.usuarios_rechazados == b.usuarios_rechazados
}

proof fn lema_marco_inscribir(
    s: TrabajoFinalVista,
    caller: AccountId,
    eleccion_id: u64,
    tipo: TIPO_DE_USUARIO,
    block_timestamp: u64,
)
    ensures
        solo_cambian_elecciones(
            s.inscribir_usuario_en_eleccion(caller, eleccion_id, tipo, block_timestamp).0,
            s,
        ),
{
    let (s1, v) = s.validar_estado_eleccion_para_inscripciones(eleccion_id, block_timestamp);
    assert(solo_cambian_elecciones(s1, s));
}

proof fn lema_marco_votar(
    s: TrabajoFinalVista,
    caller: AccountId,
    eleccion_id: u64,
    candidato_id: u64,
    block_timestamp: u64,
)
    ensures
        solo_cambian_elecciones(
            s.votar_a_candidato(caller, eleccion_id, candidato_id, block_timestamp).0,
            s,
        ),
{
    let (s1, v) = s.validar_estado_eleccion_para_votaciones(eleccion_id, block_timestamp);
    assert(solo_cambian_elecciones(s1, s));
}

proof fn lema_marco_crear(s: TrabajoFinalVista, caller: AccountId, fi: Option<i64>, ff: Option<i64>)
    ensures
        solo_cambian_elecciones(s.crear_eleccion(caller, fi, ff).0, s),
{
}

proof fn lema_marco_estados(s: TrabajoFinalVista, caller: AccountId, eleccion_id: u64, t: u64)
    ensures
        solo_cambian_elecciones(s.cerrar_eleccion(caller, eleccion_id, t).0, s),
        solo_cambian_elecciones(s.abrir_eleccion(caller, eleccion_id, t).0, s),
        solo_cambian_elecciones(s.iniciar_eleccion(caller, eleccion_id, t).0, s),
        solo_cambian_elecciones(s.finalizar_eleccion(caller, eleccion_id, t).0, s),
{
}

proof fn lema_marco_procesar_en(s: TrabajoFinalVista, caller: AccountId, eleccion_id: u64, aceptar: bool)
    ensures
        solo_cambian_elecciones(s.procesar_usuarios_en_una_eleccion(caller, eleccion_id, aceptar).0, s),
{
}

/// The messages about elections leave the users and the queues of requests as they were.
proof fn lema_marco_usuarios(s: TrabajoFinalVista, op: Operacion)
    requires
        !(op is Registrarse),
        !(op is ProcesarSiguienteUsuarioPendiente),
        !(op is ActivarRegistro),
        !(op is DesactivarRegistro),
        !(op is TransferirAdministrador),
    ensures
        solo_cambian_elecciones(aplicar(s, op).0, s),
{
    match op {
        Operacion::InscribirUsuarioEnEleccion { caller, eleccion_id, tipo, block_timestamp } => {
            lema_marco_inscribir(s, caller, eleccion_id, tipo, block_timestamp);
        },
        Operacion::VotarACandidato { caller, eleccion_id, candidato_id, block_timestamp } => {
            lema_marco_votar(s, caller, eleccion_id, candidato_id, block_timestamp);
        },
        Operacion::CrearEleccion { caller, fecha_inicial, fecha_final } => {
            lema_marco_crear(s, caller, fecha_inicial, fecha_final);
        },
        Operacion::CerrarEleccion { caller, eleccion_id, block_timestamp } => {
            lema_marco_estados(s, caller, eleccion_id, block_timestamp);
        },
        Operacion::AbrirEleccion { caller, eleccion_id, block_timestamp } => {
            lema_marco_estados(s, caller, eleccion_id, block_timestamp);
        },
        Operacion::IniciarEleccion { caller, eleccion_id, block_timestamp } => {
            lema_marco_estados(s, caller, eleccion_id, block_timestamp);
        },
        Operacion::FinalizarEleccion { caller, eleccion_id, block_timestamp } => {
            lema_marco_estados(s, caller, eleccion_id, block_timestamp);
        },
        Operacion::ProcesarUsuariosEnUnaEleccion { caller, eleccion_id, aceptar_usuario } => {
            lema_marco_procesar_en(s, caller, eleccion_id, aceptar_usuario);
        },
        _ => {},
    }
}

/// A user turned down by the administrator stays turned down, whatever message follows.
pub proof fn ley_rechazo_permanente(s: TrabajoFinalVista, op: Operacion, id: AccountId)
    requires
        s.es_usuario_rechazado(id),
    ensures
        aplicar(s, op).0.es_usuario_rechazado(id),
{
    let s2 = aplicar(s, op).0;
    let i = choose|i: int| 0 <= i < s.usuarios_rechazados.len() && s.usuarios_rechazados[i].id == id;
    if op is Registrarse || op is ProcesarSiguienteUsuarioPendiente || op is ActivarRegistro
        || op is DesactivarRegistro || op is TransferirAdministrador {
        assert(s2.usuarios_rechazados[i] == s.usuarios_rechazados[i]);
    } else {
        lema_marco_usuarios(s, op);
    }
    assert(s2.usuarios_rechazados[i].id == id);
}

/// A turned-down user cannot sign up again: the request is refused and changes nothing.
pub proof fn ley_rechazado_no_se_registra(
    s: TrabajoFinalVista,
    caller: AccountId,
    nombre: Seq<char>,
    apellido: Seq<char>,
    dni: Seq<char>,
)
    requires
        s.es_usuario_rechazado(caller),
    ensures
        s.registrarse(caller, nombre, apellido, dni).0 == s,
        s.registrarse(caller, nombre, apellido, dni).1 is Err,
{
}

/// Only accepted users may ask to take part in an election or vote in it; anyone else
/// is refused with `USUARIO_NO_REGISTRADO` and nothing changes.
pub proof fn ley_solo_usuarios_aceptados(s: TrabajoFinalVista, op: Operacion)
    requires
        op is InscribirUsuarioEnEleccion || op is VotarACandidato,
        !s.es_usuario_registrado(llamador(op)),
    ensures
        aplicar(s, op) == (s, Err::<Seq<char>, Seq<char>>(mensajes::USUARIO_NO_REGISTRADO@)),
{
}

/// The voter entry through which `id` votes in the election has its vote cast.
pub open spec fn ya_voto(e: EleccionVista, id: AccountId) -> bool {
    e.es_votante(id) && e.votantes[primer_votante(e.votantes, id)].voto_emitido
}

/// A successful vote counts one vote for the chosen candidate, leaves the other counts
/// as they were, and marks the voter as having voted.
pub proof fn ley_voto_cuenta_uno(
    s: TrabajoFinalVista,
    caller: AccountId,
    eleccion_id: u64,
    candidato_id: u64,
    block_timestamp: u64,
)
    requires
        s.votar_a_candidato(caller, eleccion_id, candidato_id, block_timestamp).1 is Ok,
    ensures
        ({
            let s2 = s.votar_a_candidato(caller, eleccion_id, candidato_id, block_timestamp).0;
            let antes = s.eleccion(eleccion_id).candidatos;
            let despues = s2.eleccion(eleccion_id).candidatos;
            &&& s.existe_eleccion(eleccion_id)
            &&& s.eleccion(eleccion_id).existe_candidato(candidato_id)
            &&& despues.len() == antes.len()
            &&& despues[candidato_id - 1].votos_totales == antes[candidato_id - 1].votos_totales + 1
            &&& forall|j: int|
                0 <= j < antes.len() && j != candidato_id - 1 ==> despues[j] == antes[j]
            &&& total_votos(despues) == total_votos(antes) + 1
            &&& !ya_voto(s.eleccion(eleccion_id), caller)
            &&& ya_voto(s2.eleccion(eleccion_id), caller)
        }),
{
    let (s1, v) = s.validar_estado_eleccion_para_votaciones(eleccion_id, block_timestamp);
    let e = s1.eleccion(eleccion_id);
    let c = candidato_id - 1;
    let cand = e.candidatos[c];
    let nuevo = CandidatoConteo { votos_totales: (cand.votos_totales + 1) as u64, ..cand };
    lema_total_votos_update(e.candidatos, c, nuevo);
    let k = choose|k: int| 0 <= k < e.votantes.len() && e.votantes[k].usuario_id == caller;
    lema_existe_primer_votante(e.votantes, caller, k);
    let i = primer_votante(e.votantes, caller);
    let e2 = e.votar_candidato(caller, candidato_id).0;
    assert(es_primer_votante(e2.votantes, caller, i));
    crate::eleccion::lema_primer_votante(e2.votantes, caller, i);
}

/// A voter who has voted in an election cannot vote in it again: the vote is refused
/// and neither the counts nor the voters of that election change.
pub proof fn ley_voto_unico(
    s: TrabajoFinalVista,
    caller: AccountId,
    eleccion_id: u64,
    candidato_id: u64,
    block_timestamp: u64,
)
    requires
        s.existe_eleccion(eleccion_id),
        ya_voto(s.eleccion(eleccion_id), caller),
    ensures
        ({
            let (s2, r) = s.votar_a_candidato(caller, eleccion_id, candidato_id, block_timestamp);
            &&& r is Err
            &&& s2.elecciones.len() == s.elecciones.len()
            &&& s2.eleccion(eleccion_id).candidatos == s.eleccion(eleccion_id).candidatos
            &&& s2.eleccion(eleccion_id).votantes == s.eleccion(eleccion_id).votantes
        }),
{
}

/// A voter whose vote was just counted is refused at any later attempt in the same
/// election.
pub proof fn ley_un_voto_por_votante(
    s: TrabajoFinalVista,
    caller: AccountId,
    eleccion_id: u64,
    candidato_id: u64,
    block_timestamp: u64,
    otro_candidato: u64,
    otro_momento: u64,
)
    requires
        s.votar_a_candidato(caller, eleccion_id, candidato_id, block_timestamp).1 is Ok,
    ensures
        s.votar_a_candidato(caller, eleccion_id, candidato_id, block_timestamp).0.votar_a_candidato(
            caller,
            eleccion_id,
            otro_candidato,
            otro_momento,
        ).1 is Err,
{
    let s2 = s.votar_a_candidato(caller, eleccion_id, candidato_id, block_timestamp).0;
    ley_voto_cuenta_uno(s, caller, eleccion_id, candidato_id, block_timestamp);
    ley_voto_unico(s2, caller, eleccion_id, otro_candidato, otro_momento);
}

/// The election at position `k` exists and is finished.
pub open spec fn finalizada_en(s: TrabajoFinalVista, k: int) -> bool {
    0 <= k < s.elecciones.len() && s.elecciones[k].estado == ESTADO_ELECCION::FINALIZADA
}

proof fn lema_fin_usuarios(s: TrabajoFinalVista, op: Operacion, k: int)
    requires
        finalizada_en(s, k),
        op is Registrarse || op is ProcesarSiguienteUsuarioPendiente || op is ActivarRegistro
            || op is DesactivarRegistro || op is TransferirAdministrador,
    ensures
        finalizada_en(aplicar(s, op).0, k),
{
}

proof fn lema_fin_crear(s: TrabajoFinalVista, caller: AccountId, fi: Option<i64>, ff: Option<i64>, k: int)
    requires
        finalizada_en(s, k),
    ensures
        finalizada_en(s.crear_eleccion(caller, fi, ff).0, k),
{
    let s2 = s.crear_eleccion(caller, fi, ff).0;
    if s2.elecciones.len() > s.elecciones.len() {
        assert(s2.elecciones[k] == s.elecciones[k]);
    }
}

proof fn lema_fin_estados(s: TrabajoFinalVista, caller: AccountId, eleccion_id: u64, t: u64, k: int)
    requires
        finalizada_en(s, k),
    ensures
        finalizada_en(s.cerrar_eleccion(caller, eleccion_id, t).0, k),
        finalizada_en(s.abrir_eleccion(caller, eleccion_id, t).0, k),
        finalizada_en(s.iniciar_eleccion(caller, eleccion_id, t).0, k),
        finalizada_en(s.finalizar_eleccion(caller, eleccion_id, t).0, k),
{
}

proof fn lema_fin_procesar_en(s: TrabajoFinalVista, caller: AccountId, eleccion_id: u64, aceptar: bool, k: int)
    requires
        finalizada_en(s, k),
    ensures
        finalizada_en(s.procesar_usuarios_en_una_eleccion(caller, eleccion_id, aceptar).0, k),
{
}

proof fn lema_fin_inscribir(
    s: TrabajoFinalVista,
    caller: AccountId,
    eleccion_id: u64,
    tipo: TIPO_DE_USUARIO,
    t: u64,
    k: int,
)
    requires
        finalizada_en(s, k),
    ensures
        finalizada_en(s.inscribir_usuario_en_eleccion(caller, eleccion_id, tipo, t).0, k),
{
    let (s1, v) = s.validar_estado_eleccion_para_inscripciones(eleccion_id, t);
    assert(finalizada_en(s1, k));
}

proof fn lema_fin_votar(
    s: TrabajoFinalVista,
    caller: AccountId,
    eleccion_id: u64,
    candidato_id: u64,
    t: u64,
    k: int,
)
    requires
        finalizada_en(s, k),
    ensures
        finalizada_en(s.votar_a_candidato(caller, eleccion_id, candidato_id, t).0, k),
{
    let (s1, v) = s.validar_estado_eleccion_para_votaciones(eleccion_id, t);
    if s.es_usuario_registrado(caller) {
        assert(finalizada_en(s1, k));
    }
}

/// A finished election stays finished, whatever message follows.
pub proof fn ley_finalizada_permanece(s: TrabajoFinalVista, op: Operacion, k: int)
    requires
        0 <= k < s.elecciones.len(),
        s.elecciones[k].estado == ESTADO_ELECCION::FINALIZADA,
    ensures
        k < aplicar(s, op).0.elecciones.len(),
        aplicar(s, op).0.elecciones[k].estado == ESTADO_ELECCION::FINALIZADA,
{
    match op {
        Operacion::CrearEleccion { caller, fecha_inicial, fecha_final } => {
            lema_fin_crear(s, caller, fecha_inicial, fecha_final, k);
        },
        Operacion::CerrarEleccion { caller, eleccion_id, block_timestamp } => {
            lema_fin_estados(s, caller, eleccion_id, block_timestamp, k);
        },
        Operacion::AbrirEleccion { caller, eleccion_id, block_timestamp } => {
            lema_fin_estados(s, caller, eleccion_id, block_timestamp, k);
        },
        Operacion::IniciarEleccion { caller, eleccion_id, block_timestamp } => {
            lema_fin_estados(s, caller, eleccion_id, block_timestamp, k);
        },
        Operacion::FinalizarEleccion { caller, eleccion_id, block_timestamp } => {
            lema_fin_estados(s, caller, eleccion_id, block_timestamp, k);
        },
        Operacion::ProcesarUsuariosEnUnaEleccion { caller, eleccion_id, aceptar_usuario } => {
            lema_fin_procesar_en(s, caller, eleccion_id, aceptar_usuario, k);
        },
        Operacion::InscribirUsuarioEnEleccion { caller, eleccion_id, tipo, block_timestamp } => {
            lema_fin_inscribir(s, caller, eleccion_id, tipo, block_timestamp, k);
        },
        Operacion::VotarACandidato { caller, eleccion_id, candidato_id, block_timestamp } => {
            lema_fin_votar(s, caller, eleccion_id, candidato_id, block_timestamp, k);
        },
        _ => {
            lema_fin_usuarios(s, op, k);
        },
    }
}

/// No account appears twice in the list.
pub open spec fn sin_repetir(l: Seq<UsuarioVista>) -> bool {
    forall|i: int, j: int| 0 <= i < j < l.len() ==> #[trigger] l[i].id != #[trigger] l[j].id
}

/// No account appears in both lists.
pub open spec fn sin_comunes(a: Seq<UsuarioVista>, b: Seq<UsuarioVista>) -> bool {
    forall|i: int, j: int|
        0 <= i < a.len() && 0 <= j < b.len() ==> #[trigger] a[i].id != #[trigger] b[j].id
}

/// Every account holds at most one place among the accepted users, the queue of
/// requests and the turned-down users.
pub open spec fn cuentas_unicas(s: TrabajoFinalVista) -> bool {
    &&& sin_repetir(s.usuarios)
    &&& sin_repetir(s.usuarios_pendientes)
    &&& sin_repetir(s.usuarios_rechazados)
    &&& sin_comunes(s.usuarios, s.usuarios_pendientes)
    &&& sin_comunes(s.usuarios, s.usuarios_rechazados)
    &&& sin_comunes(s.usuarios_pendientes, s.usuarios_rechazados)
}

proof fn lema_sin_repetir_push(l: Seq<UsuarioVista>, x: UsuarioVista)
    requires
        sin_repetir(l),
        !contiene_usuario(l, x.id),
    ensures
        sin_repetir(l.push(x)),
{
    let l2 = l.push(x);
    assert forall|i: int, j: int| 0 <= i < j < l2.len() implies #[trigger] l2[i].id
        != #[trigger] l2[j].id by {
        if j == l.len() {
            assert(l[i].id != x.id);
        } else {
            assert(l[i].id != l[j].id);
        }
    }
}

proof fn lema_sin_comunes_push(a: Seq<UsuarioVista>, b: Seq<UsuarioVista>, x: UsuarioVista)
    requires
        sin_comunes(a, b),
        !contiene_usuario(b, x.id),
    ensures
        sin_comunes(a.push(x), b),
        sin_comunes(b, a.push(x)),
{
    let a2 = a.push(x);
    assert forall|i: int, j: int| 0 <= i < a2.len() && 0 <= j < b.len() implies #[trigger] a2[i].id
        != #[trigger] b[j].id by {
        if i == a.len() {
            assert(b[j].id != x.id);
        } else {
            assert(a[i].id != b[j].id);
        }
    }
    assert forall|i: int, j: int| 0 <= i < b.len() && 0 <= j < a2.len() implies #[trigger] b[i].id
        != #[trigger] a2[j].id by {
        if j == a.len() {
            assert(b[i].id != x.id);
        } else {
            assert(a[j].id != b[i].id);
        }
    }
}

proof fn lema_sin_comunes_resto(a: Seq<UsuarioVista>, b: Seq<UsuarioVista>)
    requires
        sin_comunes(a, b),
        b.len() > 0,
    ensures
        sin_comunes(a, b.drop_first()),
        sin_comunes(b.drop_first(), a),
{
    let b2 = b.drop_first();
    assert forall|i: int, j: int| 0 <= i < a.len() && 0 <= j < b2.len() implies #[trigger] a[i].id
        != #[trigger] b2[j].id by {
        assert(a[i].id != b[j + 1].id);
    }
    assert forall|i: int, j: int| 0 <= i < b2.len() && 0 <= j < a.len() implies #[trigger] b2[i].id
        != #[trigger] a[j].id by {
        assert(a[j].id != b[i + 1].id);
    }
}

proof fn lema_sin_comunes_simetrico(a: Seq<UsuarioVista>, b: Seq<UsuarioVista>)
    requires
        sin_comunes(a, b),
    ensures
        sin_comunes(b, a),
{
    assert forall|i: int, j: int| 0 <= i < b.len() && 0 <= j < a.len() implies #[trigger] b[i].id
        != #[trigger] a[j].id by {
        assert(a[j].id != b[i].id);
    }
}

proof fn lema_unicas_procesar(s: TrabajoFinalVista, caller: AccountId, aceptar_usuario: bool)
    requires
        cuentas_unicas(s),
    ensures
        cuentas_unicas(s.procesar_siguiente_usuario_pendiente(caller, aceptar_usuario).0),
{
    if s.es_administrador(caller) && s.usuarios_pendientes.len() > 0 {
        let p = s.usuarios_pendientes;
        let x = p[0];
        let resto = p.drop_first();
        assert forall|i: int, j: int| 0 <= i < j < resto.len() implies #[trigger] resto[i].id
            != #[trigger] resto[j].id by {
            assert(p[i + 1].id != p[j + 1].id);
        }
        assert forall|j: int| 0 <= j < resto.len() implies #[trigger] resto[j].id != x.id by {
            assert(p[0].id != p[j + 1].id);
        }
        assert(!contiene_usuario(resto, x.id));
        assert forall|i: int| 0 <= i < s.usuarios.len() implies #[trigger] s.usuarios[i].id != x.id by {
            assert(s.usuarios[i].id != p[0].id);
        }
        assert forall|i: int| 0 <= i < s.usuarios_rechazados.len() implies #[trigger] s.usuarios_rechazados[i].id
            != x.id by {
            assert(p[0].id != s.usuarios_rechazados[i].id);
        }
        lema_sin_comunes_resto(s.usuarios, p);
        lema_sin_comunes_resto(s.usuarios_rechazados, p);
        lema_sin_comunes_simetrico(p, s.usuarios_rechazados);
        if aceptar_usuario {
            lema_sin_repetir_push(s.usuarios, x);
            lema_sin_comunes_push(s.usuarios, resto, x);
            lema_sin_comunes_push(s.usuarios, s.usuarios_rechazados, x);
        } else {
            lema_sin_repetir_push(s.usuarios_rechazados, x);
            lema_sin_comunes_push(s.usuarios_rechazados, resto, x);
            lema_sin_comunes_push(s.usuarios_rechazados, s.usuarios, x);
            lema_sin_comunes_simetrico(resto, s.usuarios_rechazados.push(x));
        }
    }
}

proof fn lema_unicas_registrarse(
    s: TrabajoFinalVista,
    caller: AccountId,
    nombre: Seq<char>,
    apellido: Seq<char>,
    dni: Seq<char>,
)
    requires
        cuentas_unicas(s),
    ensures
        cuentas_unicas(s.registrarse(caller, nombre, apellido, dni).0),
{
    let x = UsuarioVista { id: caller, nombre: nombre, apellido: apellido, dni: dni };
    if s.registro_activado && !s.es_administrador(caller) && !s.es_usuario_rechazado(caller)
        && !s.es_usuario_registrado(caller) && !s.es_usuario_pendiente(caller) {
        lema_sin_repetir_push(s.usuarios_pendientes, x);
        lema_sin_comunes_push(s.usuarios_pendientes, s.usuarios, x);
        lema_sin_comunes_push(s.usuarios_pendientes, s.usuarios_rechazados, x);
    }
}

/// No account ever holds two places among the accepted users, the queue of requests
/// and the turned-down users: sign-up refuses an account already known, and processing
/// moves the head of the queue to exactly one of the other two lists.
pub proof fn ley_cuentas_unicas(s: TrabajoFinalVista, op: Operacion)
    requires
        cuentas_unicas(s),
    ensures
        cuentas_unicas(aplicar(s, op).0),
{
    match op {
        Operacion::Registrarse { caller, nombre, apellido, dni } => {
            lema_unicas_registrarse(s, caller, nombre, apellido, dni);
        },
        Operacion::ProcesarSiguienteUsuarioPendiente { caller, aceptar_usuario } => {
            lema_unicas_procesar(s, caller, aceptar_usuario);
        },
        Operacion::ActivarRegistro { .. } => {},
        Operacion::DesactivarRegistro { .. } => {},
        Operacion::TransferirAdministrador { .. } => {},
        _ => {
            lema_marco_usuarios(s, op);
        },
    }
}

/// The accounts of the candidates, in order.
pub open spec fn cuentas_candidatos(c: Seq<CandidatoConteo>) -> Seq<AccountId> {
    c.map_values(|x: CandidatoConteo| x.usuario_id)
}

/// The accounts of the voters, in order.
pub open spec fn cuentas_votantes(v: Seq<Votante>) -> Seq<AccountId> {
    v.map_values(|x: Votante| x.usuario_id)
}

/// The accounts of the queue of requests, in order.
pub open spec fn cuentas_pendientes(p: Seq<(AccountId, TIPO_DE_USUARIO)>) -> Seq<AccountId> {
    p.map_values(|x: (AccountId, TIPO_DE_USUARIO)| x.0)
}

/// No account appears twice.
pub open spec fn distintas(l: Seq<AccountId>) -> bool {
    forall|i: int, j: int| 0 <= i < j < l.len() ==> #[trigger] l[i] != #[trigger] l[j]
}

/// No account appears in both.
pub open spec fn ajenas(a: Seq<AccountId>, b: Seq<AccountId>) -> bool {
    forall|i: int, j: int| 0 <= i < a.len() && 0 <= j < b.len() ==> #[trigger] a[i] != #[trigger] b[j]
}

/// In the election every account holds at most one place: one candidacy, one voter
/// entry, one request in the queue or one refusal.
pub open spec fn roles_unicos(e: EleccionVista) -> bool {
    let c = cuentas_candidatos(e.candidatos);
    let v = cuentas_votantes(e.votantes);
    let p = cuentas_pendientes(e.usuarios_pendientes);
    let r = e.usuarios_rechazados;
    &&& distintas(c)
    &&& distintas(v)
    &&& distintas(p)
    &&& distintas(r)
    &&& ajenas(c, v)
    &&& ajenas(c, p)
    &&& ajenas(c, r)
    &&& ajenas(v, p)
    &&& ajenas(v, r)
    &&& ajenas(p, r)
}

/// Every election of the registry gives each account at most one place.
pub open spec fn roles_unicos_en_todas(s: TrabajoFinalVista) -> bool {
    forall|k: int| 0 <= k < s.elecciones.len() ==> roles_unicos(#[trigger] s.elecciones[k])
}

proof fn lema_distintas_push(l: Seq<AccountId>, x: AccountId)
    requires
        distintas(l),
        !l.contains(x),
    ensures
        distintas(l.push(x)),
{
    let l2 = l.push(x);
    assert forall|i: int, j: int| 0 <= i < j < l2.len() implies #[trigger] l2[i] != #[trigger] l2[j] by {
        if j == l.len() {
            assert(l.contains(l[i]));
        } else {
            assert(l[i] != l[j]);
        }
    }
}

proof fn lema_ajenas_push(a: Seq<AccountId>, b: Seq<AccountId>, x: AccountId)
    requires
        ajenas(a, b),
        !b.contains(x),
    ensures
        ajenas(a.push(x), b),
        ajenas(b, a.push(x)),
{
    let a2 = a.push(x);
    assert forall|i: int, j: int| 0 <= i < a2.len() && 0 <= j < b.len() implies #[trigger] a2[i]
        != #[trigger] b[j] by {
        if i == a.len() {
            assert(b.contains(b[j]));
        } else {
            assert(a[i] != b[j]);
        }
    }
    assert forall|i: int, j: int| 0 <= i < b.len() && 0 <= j < a2.len() implies #[trigger] b[i]
        != #[trigger] a2[j] by {
        if j == a.len() {
            assert(b.contains(b[i]));
        } else {
            assert(a[j] != b[i]);
        }
    }
}

proof fn lema_ajenas_simetricas(a: Seq<AccountId>, b: Seq<AccountId>)
    requires
        ajenas(a, b),
    ensures
        ajenas(b, a),
{
    assert forall|i: int, j: int| 0 <= i < b.len() && 0 <= j < a.len() implies #[trigger] b[i]
        != #[trigger] a[j] by {
        assert(a[j] != b[i]);
    }
}

proof fn lema_ajenas_resto(a: Seq<AccountId>, b: Seq<AccountId>)
    requires
        ajenas(a, b),
        b.len() > 0,
    ensures
        ajenas(a, b.drop_first()),
        ajenas(b.drop_first(), a),
        !a.contains(b[0]),
{
    let b2 = b.drop_first();
    assert forall|i: int, j: int| 0 <= i < a.len() && 0 <= j < b2.len() implies #[trigger] a[i]
        != #[trigger] b2[j] by {
        assert(a[i] != b[j + 1]);
    }
    lema_ajenas_simetricas(a, b2);
    if a.contains(b[0]) {
        let i = choose|i: int| 0 <= i < a.len() && a[i] == b[0];
        assert(a[i] != b[0]);
    }
}

proof fn lema_distintas_resto(l: Seq<AccountId>)
    requires
        distintas(l),
        l.len() > 0,
    ensures
        distintas(l.drop_first()),
        !l.drop_first().contains(l[0]),
{
    let l2 = l.drop_first();
    assert forall|i: int, j: int| 0 <= i < j < l2.len() implies #[trigger] l2[i] != #[trigger] l2[j] by {
        assert(l[i + 1] != l[j + 1]);
    }
    if l2.contains(l[0]) {
        let j = choose|j: int| 0 <= j < l2.len() && l2[j] == l[0];
        assert(l[0] != l[j + 1]);
    }
}

/// A vote keeps the accounts of candidates and voters where they were.
proof fn lema_roles_votar(e: EleccionVista, votante_id: AccountId, candidato_id: u64)
    requires
        roles_unicos(e),
    ensures
        roles_unicos(e.votar_candidato(votante_id, candidato_id).0),
{
    let (e2, r) = e.votar_candidato(votante_id, candidato_id);
    if r is Ok {
        let k = choose|k: int| 0 <= k < e.votantes.len() && e.votantes[k].usuario_id == votante_id;
        lema_existe_primer_votante(e.votantes, votante_id, k);
        assert(cuentas_candidatos(e2.candidatos) =~= cuentas_candidatos(e.candidatos));
        assert(cuentas_votantes(e2.votantes) =~= cuentas_votantes(e.votantes));
    }
}

/// A request joins the queue only from an account with no place in the election.
proof fn lema_roles_pedir(e: EleccionVista, caller: AccountId, tipo: TIPO_DE_USUARIO)
    requires
        roles_unicos(e),
        !e.es_usuario_rechazado(caller),
        !e.es_usuario_pendiente(caller),
        !e.es_votante(caller),
        !e.es_candidato(caller),
    ensures
        roles_unicos(
            EleccionVista { usuarios_pendientes: e.usuarios_pendientes.push((caller, tipo)), ..e },
        ),
{
    let c = cuentas_candidatos(e.candidatos);
    let v = cuentas_votantes(e.votantes);
    let p = cuentas_pendientes(e.usuarios_pendientes);
    let r = e.usuarios_rechazados;
    let p2 = cuentas_pendientes(e.usuarios_pendientes.push((caller, tipo)));
    assert(p2 =~= p.push(caller));
    if c.contains(caller) {
        let i = choose|i: int| 0 <= i < c.len() && c[i] == caller;
        assert(e.candidatos[i].usuario_id == caller);
    }
    if v.contains(caller) {
        let i = choose|i: int| 0 <= i < v.len() && v[i] == caller;
        assert(e.votantes[i].usuario_id == caller);
    }
    if p.contains(caller) {
        let i = choose|i: int| 0 <= i < p.len() && p[i] == caller;
        assert(e.usuarios_pendientes[i].0 == caller);
    }
    if r.contains(caller) {
        let i = choose|i: int| 0 <= i < r.len() && r[i] == caller;
        assert(e.usuarios_rechazados[i] == caller);
    }
    lema_distintas_push(p, caller);
    lema_ajenas_simetricas(c, p);
    lema_ajenas_push(p, c, caller);
    lema_ajenas_simetricas(v, p);
    lema_ajenas_push(p, v, caller);
    lema_ajenas_push(p, r, caller);
}

/// Processing the head of the queue moves its account to at most one other place.
proof fn lema_roles_procesar(e: EleccionVista, aceptar_usuario: bool)
    requires
        roles_unicos(e),
    ensures
        roles_unicos(e.procesar_siguiente_usuario_pendiente(aceptar_usuario).0),
{
    let e2 = e.procesar_siguiente_usuario_pendiente(aceptar_usuario).0;
    if e.usuarios_pendientes.len() > 0 {
        let (x, t) = e.usuarios_pendientes[0];
        let c = cuentas_candidatos(e.candidatos);
        let v = cuentas_votantes(e.votantes);
        let p = cuentas_pendientes(e.usuarios_pendientes);
        let r = e.usuarios_rechazados;
        let resto = cuentas_pendientes(e.usuarios_pendientes.drop_first());
        assert(resto =~= p.drop_first());
        assert(p[0] == x);
        lema_distintas_resto(p);
        lema_ajenas_resto(c, p);
        lema_ajenas_resto(v, p);
        lema_ajenas_simetricas(p, r);
        lema_ajenas_resto(r, p);
        lema_ajenas_simetricas(p.drop_first(), r);
        if aceptar_usuario {
            match t {
                TIPO_DE_USUARIO::VOTANTE => {
                    let n = Votante { usuario_id: x, voto_emitido: false };
                    assert(cuentas_votantes(e.votantes.push(n)) =~= v.push(x));
                    lema_distintas_push(v, x);
                    lema_ajenas_simetricas(c, v);
                    lema_ajenas_push(v, c, x);
                    lema_ajenas_push(v, p.drop_first(), x);
                    lema_ajenas_push(v, r, x);
                    lema_ajenas_simetricas(c, v.push(x));
                },
                TIPO_DE_USUARIO::CANDIDATO => {
                    if e.candidatos.len() < u64::MAX {
                        let n = CandidatoConteo {
                            id: (e.candidatos.len() + 1) as u64,
                            usuario_id: x,
                            votos_totales: 0,
                        };
                        assert(cuentas_candidatos(e.candidatos.push(n)) =~= c.push(x));
                        lema_distintas_push(c, x);
                        lema_ajenas_push(c, v, x);
                        lema_ajenas_push(c, p.drop_first(), x);
                        lema_ajenas_push(c, r, x);
                    }
                },
            }
        } else {
            lema_distintas_push(r, x);
            lema_ajenas_simetricas(c, r);
            lema_ajenas_push(r, c, x);
            lema_ajenas_simetricas(v, r);
            lema_ajenas_push(r, v, x);
            lema_ajenas_push(r, p.drop_first(), x);
            lema_ajenas_simetricas(c, r.push(x));
            lema_ajenas_simetricas(v, r.push(x));
        }
    }
}

/// Replacing an election by one whose places are unique keeps all of them so.
proof fn lema_roles_con_eleccion(s: TrabajoFinalVista, eleccion_id: u64, e: EleccionVista)
    requires
        roles_unicos_en_todas(s),
        s.existe_eleccion(eleccion_id),
        roles_unicos(e),
    ensures
        roles_unicos_en_todas(s.con_eleccion(eleccion_id, e)),
{
    let s2 = s.con_eleccion(eleccion_id, e);
    assert forall|k: int| 0 <= k < s2.elecciones.len() implies roles_unicos(
        #[trigger] s2.elecciones[k],
    ) by {
        if k != eleccion_id - 1 {
            assert(s2.elecciones[k] == s.elecciones[k]);
        }
    }
}

proof fn lema_roles_crear(s: TrabajoFinalVista, caller: AccountId, fi: Option<i64>, ff: Option<i64>)
    requires
        roles_unicos_en_todas(s),
    ensures
        roles_unicos_en_todas(s.crear_eleccion(caller, fi, ff).0),
{
    let s2 = s.crear_eleccion(caller, fi, ff).0;
    assert forall|k: int| 0 <= k < s2.elecciones.len() implies roles_unicos(
        #[trigger] s2.elecciones[k],
    ) by {
        if k < s.elecciones.len() {
            assert(s2.elecciones[k] == s.elecciones[k]);
        } else {
            assert(cuentas_candidatos(s2.elecciones[k].candidatos) =~= Seq::empty());
            assert(cuentas_votantes(s2.elecciones[k].votantes) =~= Seq::empty());
            assert(cuentas_pendientes(s2.elecciones[k].usuarios_pendientes) =~= Seq::empty());
        }
    }
}

proof fn lema_roles_estados(s: TrabajoFinalVista, caller: AccountId, eleccion_id: u64, t: u64)
    requires
        roles_unicos_en_todas(s),
    ensures
        roles_unicos_en_todas(s.cerrar_eleccion(caller, eleccion_id, t).0),
        roles_unicos_en_todas(s.abrir_eleccion(caller, eleccion_id, t).0),
        roles_unicos_en_todas(s.iniciar_eleccion(caller, eleccion_id, t).0),
        roles_unicos_en_todas(s.finalizar_eleccion(caller, eleccion_id, t).0),
{
    if s.existe_eleccion(eleccion_id) {
        let e = s.eleccion(eleccion_id);
        assert(roles_unicos(e));
        lema_roles_con_eleccion(s, eleccion_id, e.con_estado(ESTADO_ELECCION::CERRADA));
        lema_roles_con_eleccion(s, eleccion_id, e.con_estado(ESTADO_ELECCION::ABIERTA));
        lema_roles_con_eleccion(s, eleccion_id, e.con_estado(ESTADO_ELECCION::INICIADA));
        lema_roles_con_eleccion(s, eleccion_id, e.con_estado(ESTADO_ELECCION::FINALIZADA));
    }
}

proof fn lema_roles_procesar_en(s: TrabajoFinalVista, caller: AccountId, eleccion_id: u64, aceptar: bool)
    requires
        roles_unicos_en_todas(s),
    ensures
        roles_unicos_en_todas(s.procesar_usuarios_en_una_eleccion(caller, eleccion_id, aceptar).0),
{
    if s.existe_eleccion(eleccion_id) {
        let e = s.eleccion(eleccion_id);
        assert(roles_unicos(e));
        lema_roles_procesar(e, aceptar);
        lema_roles_con_eleccion(s, eleccion_id, e.procesar_siguiente_usuario_pendiente(aceptar).0);
    }
}

proof fn lema_roles_inscribir(
    s: TrabajoFinalVista,
    caller: AccountId,
    eleccion_id: u64,
    tipo: TIPO_DE_USUARIO,
    t: u64,
)
    requires
        roles_unicos_en_todas(s),
    ensures
        roles_unicos_en_todas(s.inscribir_usuario_en_eleccion(caller, eleccion_id, tipo, t).0),
{
    if s.existe_eleccion(eleccion_id) {
        let e = s.eleccion(eleccion_id);
        assert(roles_unicos(e));
        lema_roles_con_eleccion(s, eleccion_id, e.con_estado(ESTADO_ELECCION::FINALIZADA));
        lema_roles_con_eleccion(s, eleccion_id, e.con_estado(ESTADO_ELECCION::INICIADA));
        let (s1, v) = s.validar_estado_eleccion_para_inscripciones(eleccion_id, t);
        if v is Ok && !e.es_usuario_rechazado(caller) && !e.es_usuario_pendiente(caller)
            && !e.es_votante(caller) && !e.es_candidato(caller) {
            lema_roles_pedir(e, caller, tipo);
            lema_roles_con_eleccion(
                s,
                eleccion_id,
                EleccionVista { usuarios_pendientes: e.usuarios_pendientes.push((caller, tipo)), ..e },
            );
        }
    }
}

proof fn lema_roles_votar_en(
    s: TrabajoFinalVista,
    caller: AccountId,
    eleccion_id: u64,
    candidato_id: u64,
    t: u64,
)
    requires
        roles_unicos_en_todas(s),
    ensures
        roles_unicos_en_todas(s.votar_a_candidato(caller, eleccion_id, candidato_id, t).0),
{
    if s.existe_eleccion(eleccion_id) {
        let e = s.eleccion(eleccion_id);
        assert(roles_unicos(e));
        lema_roles_con_eleccion(s, eleccion_id, e.con_estado(ESTADO_ELECCION::FINALIZADA));
        let e1 = e.con_estado(ESTADO_ELECCION::INICIADA);
        lema_roles_con_eleccion(s, eleccion_id, e1);
        let (s1, v) = s.validar_estado_eleccion_para_votaciones(eleccion_id, t);
        if v is Ok {
            let e0 = s1.eleccion(eleccion_id);
            lema_roles_votar(e0, caller, candidato_id);
            lema_roles_con_eleccion(s1, eleccion_id, e0.votar_candidato(caller, candidato_id).0);
        }
    }
}

/// No account ever holds two places in one election: a request is taken only from an
/// account with no place there, processing moves the head of the queue to one place,
/// and a vote keeps every account where it was.
pub proof fn ley_roles_unicos(s: TrabajoFinalVista, op: Operacion)
    requires
        roles_unicos_en_todas(s),
    ensures
        roles_unicos_en_todas(aplicar(s, op).0),
{
    match op {
        Operacion::CrearEleccion { caller, fecha_inicial, fecha_final } => {
            lema_roles_crear(s, caller, fecha_inicial, fecha_final);
        },
        Operacion::CerrarEleccion { caller, eleccion_id, block_timestamp } => {
            lema_roles_estados(s, caller, eleccion_id, block_timestamp);
        },
        Operacion::AbrirEleccion { caller, eleccion_id, block_timestamp } => {
            lema_roles_estados(s, caller, eleccion_id, block_timestamp);
        },
        Operacion::IniciarEleccion { caller, eleccion_id, block_timestamp } => {
            lema_roles_estados(s, caller, eleccion_id, block_timestamp);
        },
        Operacion::FinalizarEleccion { caller, eleccion_id, block_timestamp } => {
            lema_roles_estados(s, caller, eleccion_id, block_timestamp);
        },
        Operacion::ProcesarUsuariosEnUnaEleccion { caller, eleccion_id, aceptar_usuario } => {
            lema_roles_procesar_en(s, caller, eleccion_id, aceptar_usuario);
        },
        Operacion::InscribirUsuarioEnEleccion { caller, eleccion_id, tipo, block_timestamp } => {
            lema_roles_inscribir(s, caller, eleccion_id, tipo, block_timestamp);
        },
        Operacion::VotarACandidato { caller, eleccion_id, candidato_id, block_timestamp } => {
            lema_roles_votar_en(s, caller, eleccion_id, candidato_id, block_timestamp);
        },
        _ => {},
    }
}

/// An accepted user stays accepted, whatever message follows.
pub proof fn ley_aceptacion_permanente(s: TrabajoFinalVista, op: Operacion, id: AccountId)
    requires
        s.es_usuario_registrado(id),
    ensures
        aplicar(s, op).0.es_usuario_registrado(id),
{
    let s2 = aplicar(s, op).0;
    let i = choose|i: int| 0 <= i < s.usuarios.len() && s.usuarios[i].id == id;
    if op is Registrarse || op is ProcesarSiguienteUsuarioPendiente || op is ActivarRegistro
        || op is DesactivarRegistro || op is TransferirAdministrador {
        assert(s2.usuarios[i] == s.usuarios[i]);
    } else {
        lema_marco_usuarios(s, op);
    }
    assert(s2.usuarios[i].id == id);
}

/// The vote of `id` stays cast when its first voter entry keeps its place and its mark.
proof fn lema_ya_voto_se_conserva(v: Seq<Votante>, v2: Seq<Votante>, id: AccountId)
    requires
        exists|k: int| 0 <= k < v.len() && v[k].usuario_id == id,
        v[primer_votante(v, id)].voto_emitido,
        v.len() <= v2.len(),
        forall|j: int| 0 <= j < v.len() ==> #[trigger] v2[j].usuario_id == v[j].usuario_id,
        forall|j: int|
            0 <= j < v.len() && (#[trigger] v[j]).voto_emitido ==> v2[j].voto_emitido,
    ensures
        exists|k: int| 0 <= k < v2.len() && v2[k].usuario_id == id,
        v2[primer_votante(v2, id)].voto_emitido,
{
    let k = choose|k: int| 0 <= k < v.len() && v[k].usuario_id == id;
    lema_existe_primer_votante(v, id, k);
    let i = primer_votante(v, id);
    assert(v2[i].usuario_id == id);
    assert forall|j: int| 0 <= j < i implies v2[j].usuario_id != id by {
        assert(v2[j].usuario_id == v[j].usuario_id);
    }
    assert(es_primer_votante(v2, id, i));
    crate::eleccion::lema_primer_votante(v2, id, i);
    assert(v[i].voto_emitido);
}

/// What an election keeps of its voters: each voter entry stays in its place with its
/// account, and a cast vote stays cast.
pub open spec fn conserva_votantes(e: EleccionVista, e2: EleccionVista) -> bool {
    &&& e.votantes.len() <= e2.votantes.len()
    &&& forall|j: int|
        0 <= j < e.votantes.len() ==> #[trigger] e2.votantes[j].usuario_id == e.votantes[j].usuario_id
    &&& forall|j: int|
        0 <= j < e.votantes.len() && (#[trigger] e.votantes[j]).voto_emitido
            ==> e2.votantes[j].voto_emitido
}

/// Every election of `s` is kept, with its voters, in `s2`.
pub open spec fn conserva_elecciones(s: TrabajoFinalVista, s2: TrabajoFinalVista) -> bool {
    &&& s.elecciones.len() <= s2.elecciones.len()
    &&& forall|k: int|
        0 <= k < s.elecciones.len() ==> conserva_votantes(
            #[trigger] s.elecciones[k],
            s2.elecciones[k],
        )
}

proof fn lema_conserva_con_eleccion(s: TrabajoFinalVista, eleccion_id: u64, e: EleccionVista)
    requires
        s.existe_eleccion(eleccion_id),
        conserva_votantes(s.eleccion(eleccion_id), e),
    ensures
        conserva_elecciones(s, s.con_eleccion(eleccion_id, e)),
{
    let s2 = s.con_eleccion(eleccion_id, e);
    assert forall|k: int| 0 <= k < s.elecciones.len() implies conserva_votantes(
        #[trigger] s.elecciones[k],
        s2.elecciones[k],
    ) by {
        if k != eleccion_id - 1 {
            assert(s2.elecciones[k] == s.elecciones[k]);
        }
    }
}

proof fn lema_conserva_votar(e: EleccionVista, votante_id: AccountId, candidato_id: u64)
    ensures
        conserva_votantes(e, e.votar_candidato(votante_id, candidato_id).0),
{
    let (e2, r) = e.votar_candidato(votante_id, candidato_id);
    if r is Ok {
        let k = choose|k: int| 0 <= k < e.votantes.len() && e.votantes[k].usuario_id == votante_id;
        lema_existe_primer_votante(e.votantes, votante_id, k);
    }
}

proof fn lema_conserva_procesar(e: EleccionVista, aceptar: bool)
    ensures
        conserva_votantes(e, e.procesar_siguiente_usuario_pendiente(aceptar).0),
{
}

proof fn lema_conserva_operacion(s: TrabajoFinalVista, op: Operacion)
    ensures
        conserva_elecciones(s, aplicar(s, op).0),
{
    let s2 = aplicar(s, op).0;
    match op {
        Operacion::CrearEleccion { caller, fecha_inicial, fecha_final } => {
            assert forall|k: int| 0 <= k < s.elecciones.len() implies conserva_votantes(
                #[trigger] s.elecciones[k],
                s2.elecciones[k],
            ) by {
                assert(s2.elecciones[k] == s.elecciones[k]);
            }
        },
        Operacion::CerrarEleccion { caller, eleccion_id, block_timestamp } => {
            if s.existe_eleccion(eleccion_id) {
                lema_conserva_con_eleccion(s, eleccion_id, s.eleccion(eleccion_id).con_estado(ESTADO_ELECCION::CERRADA));
            }
        },
        Operacion::AbrirEleccion { caller, eleccion_id, block_timestamp } => {
            if s.existe_eleccion(eleccion_id) {
                lema_conserva_con_eleccion(s, eleccion_id, s.eleccion(eleccion_id).con_estado(ESTADO_ELECCION::ABIERTA));
            }
        },
        Operacion::IniciarEleccion { caller, eleccion_id, block_timestamp } => {
            if s.existe_eleccion(eleccion_id) {
                lema_conserva_con_eleccion(s, eleccion_id, s.eleccion(eleccion_id).con_estado(ESTADO_ELECCION::INICIADA));
            }
        },
        Operacion::FinalizarEleccion { caller, eleccion_id, block_timestamp } => {
            if s.existe_eleccion(eleccion_id) {
                lema_conserva_con_eleccion(s, eleccion_id, s.eleccion(eleccion_id).con_estado(ESTADO_ELECCION::FINALIZADA));
            }
        },
        Operacion::ProcesarUsuariosEnUnaEleccion { caller, eleccion_id, aceptar_usuario } => {
            if s.existe_eleccion(eleccion_id) {
                let e = s.eleccion(eleccion_id);
                lema_conserva_procesar(e, aceptar_usuario);
                lema_conserva_con_eleccion(s, eleccion_id, e.procesar_siguiente_usuario_pendiente(aceptar_usuario).0);
            }
        },
        Operacion::InscribirUsuarioEnEleccion { caller, eleccion_id, tipo, block_timestamp } => {
            if s.existe_eleccion(eleccion_id) {
                let e = s.eleccion(eleccion_id);
                lema_conserva_con_eleccion(s, eleccion_id, e.con_estado(ESTADO_ELECCION::FINALIZADA));
                lema_conserva_con_eleccion(s, eleccion_id, e.con_estado(ESTADO_ELECCION::INICIADA));
                lema_conserva_con_eleccion(
                    s,
                    eleccion_id,
                    EleccionVista { usuarios_pendientes: e.usuarios_pendientes.push((caller, tipo)), ..e },
                );
            }
        },
        Operacion::VotarACandidato { caller, eleccion_id, candidato_id, block_timestamp } => {
            if s.existe_eleccion(eleccion_id) {
                let e = s.eleccion(eleccion_id);
                lema_conserva_con_eleccion(s, eleccion_id, e.con_estado(ESTADO_ELECCION::FINALIZADA));
                let e1 = e.con_estado(ESTADO_ELECCION::INICIADA);
                lema_conserva_con_eleccion(s, eleccion_id, e1);
                lema_conserva_votar(e, caller, candidato_id);
                lema_conserva_votar(e1, caller, candidato_id);
                lema_conserva_con_eleccion(s, eleccion_id, e.votar_candidato(caller, candidato_id).0);
                lema_conserva_con_eleccion(s, eleccion_id, e1.votar_candidato(caller, candidato_id).0);
            }
        },
        _ => {},
    }
}

/// A cast vote stays cast: whatever message follows, the voter keeps its entry in the
/// election with its vote marked.
pub proof fn ley_voto_permanece(s: TrabajoFinalVista, op: Operacion, eleccion_id: u64, id: AccountId)
    requires
        s.existe_eleccion(eleccion_id),
        ya_voto(s.eleccion(eleccion_id), id),
    ensures
        aplicar(s, op).0.existe_eleccion(eleccion_id),
        ya_voto(aplicar(s, op).0.eleccion(eleccion_id), id),
{
    let s2 = aplicar(s, op).0;
    lema_conserva_operacion(s, op);
    let k = eleccion_id - 1;
    assert(conserva_votantes(s.elecciones[k], s2.elecciones[k]));
    lema_ya_voto_se_conserva(s.elecciones[k].votantes, s2.elecciones[k].votantes, id);
}

/// Once an election is finished no vote is taken in it: every attempt is refused and
/// changes nothing.
pub proof fn ley_sin_votos_tras_finalizar(
    s: TrabajoFinalVista,
    caller: AccountId,
    eleccion_id: u64,
    candidato_id: u64,
    block_timestamp: u64,
)
    requires
        s.existe_eleccion(eleccion_id),
        s.eleccion(eleccion_id).estado == ESTADO_ELECCION::FINALIZADA,
    ensures
        s.votar_a_candidato(caller, eleccion_id, candidato_id, block_timestamp).0 == s,
        s.votar_a_candidato(caller, eleccion_id, candidato_id, block_timestamp).1 is Err,
{
    let e = s.eleccion(eleccion_id);
    assert(e.con_estado(ESTADO_ELECCION::FINALIZADA) == e);
    assert(s.elecciones.update(eleccion_id - 1, e) =~= s.elecciones);
}

/// The registry with only the stage of the election numbered `eleccion_id` changed.
pub open spec fn con_etapa(s: TrabajoFinalVista, eleccion_id: u64, estado: ESTADO_ELECCION) -> TrabajoFinalVista {
    TrabajoFinalVista {
        elecciones: s.elecciones.update(
            eleccion_id - 1,
            EleccionVista { estado: estado, ..s.elecciones[eleccion_id - 1] },
        ),
        ..s
    }
}

/// Starting the voting succeeds exactly for the administrator, on an existing election
/// that is closed or open, at a time within its dates; the election is then in voting
/// and nothing else changes. Any refusal changes nothing.
pub proof fn ley_iniciar_eleccion(s: TrabajoFinalVista, caller: AccountId, eleccion_id: u64, t: u64)
    ensures
        ({
            let (s2, r) = s.iniciar_eleccion(caller, eleccion_id, t);
            let e = s.elecciones[eleccion_id - 1];
            &&& r is Ok <==> {
                &&& caller == s.administrador
                &&& 1 <= eleccion_id <= s.elecciones.len()
                &&& e.fecha_inicio <= t <= e.fecha_final
                &&& (e.estado == ESTADO_ELECCION::CERRADA || e.estado == ESTADO_ELECCION::ABIERTA)
            }
            &&& r is Ok ==> s2 == con_etapa(s, eleccion_id, ESTADO_ELECCION::INICIADA) && r
                == Ok::<Seq<char>, Seq<char>>(mensajes::ELECCION_INICIADA@ + decimal(e.id as nat))
            &&& r is Err ==> s2 == s
        }),
{
}

/// Opening enrolment succeeds exactly for the administrator, on an existing closed
/// election, no later than its start; the election is then open and nothing else
/// changes. Any refusal changes nothing.
pub proof fn ley_abrir_eleccion(s: TrabajoFinalVista, caller: AccountId, eleccion_id: u64, t: u64)
    ensures
        ({
            let (s2, r) = s.abrir_eleccion(caller, eleccion_id, t);
            let e = s.elecciones[eleccion_id - 1];
            &&& r is Ok <==> {
                &&& caller == s.administrador
                &&& 1 <= eleccion_id <= s.elecciones.len()
                &&& t <= e.fecha_inicio
                &&& e.estado == ESTADO_ELECCION::CERRADA
            }
            &&& r is Ok ==> s2 == con_etapa(s, eleccion_id, ESTADO_ELECCION::ABIERTA) && r
                == Ok::<Seq<char>, Seq<char>>(mensajes::ELECCION_ABIERTA@ + decimal(e.id as nat))
            &&& r is Err ==> s2 == s
        }),
{
}

/// Closing enrolment succeeds exactly for the administrator, on an existing open
/// election, no later than its start; the election is then closed and nothing else
/// changes. Any refusal changes nothing.
pub proof fn ley_cerrar_eleccion(s: TrabajoFinalVista, caller: AccountId, eleccion_id: u64, t: u64)
    ensures
        ({
            let (s2, r) = s.cerrar_eleccion(caller, eleccion_id, t);
            let e = s.elecciones[eleccion_id - 1];
            &&& r is Ok <==> {
                &&& caller == s.administrador
                &&& 1 <= eleccion_id <= s.elecciones.len()
                &&& t <= e.fecha_inicio
                &&& e.estado == ESTADO_ELECCION::ABIERTA
            }
            &&& r is Ok ==> s2 == con_etapa(s, eleccion_id, ESTADO_ELECCION::CERRADA) && r
                == Ok::<Seq<char>, Seq<char>>(mensajes::ELECCION_CERRADA@ + decimal(e.id as nat))
            &&& r is Err ==> s2 == s
        }),
{
}

/// Ending an election succeeds exactly for the administrator, on an existing election
/// not yet finished, once its final date is reached; the election is then finished
/// and nothing else changes. Any refusal changes nothing.
pub proof fn ley_finalizar_eleccion(s: TrabajoFinalVista, caller: AccountId, eleccion_id: u64, t: u64)
    ensures
        ({
            let (s2, r) = s.finalizar_eleccion(caller, eleccion_id, t);
            let e = s.elecciones[eleccion_id - 1];
            &&& r is Ok <==> {
                &&& caller == s.administrador
                &&& 1 <= eleccion_id <= s.elecciones.len()
                &&& e.fecha_final <= t
                &&& e.estado != ESTADO_ELECCION::FINALIZADA
            }
            &&& r is Ok ==> s2 == con_etapa(s, eleccion_id, ESTADO_ELECCION::FINALIZADA) && r
                == Ok::<Seq<char>, Seq<char>>(mensajes::ELECCION_FINALIZADA@ + decimal(e.id as nat))
            &&& r is Err ==> s2 == s
        }),
{
}

/// Within the dates of an election that is not finished, the vote of an accepted user
/// who is a voter of it, has not voted and holds no other place in it, for an existing
/// candidate, is counted whatever the stage (closed, open or voting): the answer is
/// success, the candidate gains one vote, the voter is marked, and the election is in
/// voting once its start has passed.
pub proof fn ley_voto_dentro_de_fechas(
    s: TrabajoFinalVista,
    caller: AccountId,
    eleccion_id: u64,
    candidato_id: u64,
    t: u64,
)
    requires
        s.es_usuario_registrado(caller),
        1 <= eleccion_id <= s.elecciones.len(),
        s.elecciones[eleccion_id - 1].estado != ESTADO_ELECCION::FINALIZADA,
        s.elecciones[eleccion_id - 1].fecha_inicio <= t <= s.elecciones[eleccion_id - 1].fecha_final,
        s.elecciones[eleccion_id - 1].es_votante(caller),
        !ya_voto(s.elecciones[eleccion_id - 1], caller),
        !s.elecciones[eleccion_id - 1].es_candidato(caller),
        !s.elecciones[eleccion_id - 1].es_usuario_pendiente(caller),
        !s.elecciones[eleccion_id - 1].es_usuario_rechazado(caller),
        1 <= candidato_id <= s.elecciones[eleccion_id - 1].candidatos.len(),
        s.elecciones[eleccion_id - 1].candidatos[candidato_id - 1].votos_totales < u64::MAX,
    ensures
        ({
            let (s2, r) = s.votar_a_candidato(caller, eleccion_id, candidato_id, t);
            let e = s.elecciones[eleccion_id - 1];
            let e2 = s2.elecciones[eleccion_id - 1];
            &&& r == Ok::<Seq<char>, Seq<char>>(mensajes::VOTO_EMITIDO@)
            &&& s2.elecciones.len() == s.elecciones.len()
            &&& e2.candidatos.len() == e.candidatos.len()
            &&& e2.candidatos[candidato_id - 1].votos_totales == e.candidatos[candidato_id
                - 1].votos_totales + 1
            &&& ya_voto(e2, caller)
            &&& e2.estado == if e.fecha_inicio < t {
                ESTADO_ELECCION::INICIADA
            } else {
                e.estado
            }
        }),
{
    let (s1, v) = s.validar_estado_eleccion_para_votaciones(eleccion_id, t);
    let e = s1.eleccion(eleccion_id);
    let k = choose|k: int| 0 <= k < e.votantes.len() && e.votantes[k].usuario_id == caller;
    lema_existe_primer_votante(e.votantes, caller, k);
    let i = primer_votante(e.votantes, caller);
    let e2 = e.votar_candidato(caller, candidato_id).0;
    assert(es_primer_votante(e2.votantes, caller, i));
    crate::eleccion::lema_primer_votante(e2.votantes, caller, i);
}

/// Candidate information answers with the name and surname of an accepted user whose
/// account is that of the requested candidate of the requested election; it answers
/// exactly when the election and the candidate exist, the candidate's account is an
/// accepted user, and the caller is an accepted user who is a voter or a candidate of
/// that election.
pub proof fn ley_informacion_candidato(
    s: TrabajoFinalVista,
    caller: AccountId,
    eleccion_id: u64,
    candidato_id: u64,
)
    ensures
        ({
            let r = s.obtener_informacion_candidato(caller, eleccion_id, candidato_id);
            let e = s.elecciones[eleccion_id - 1];
            &&& r is Ok <==> {
                &&& 1 <= eleccion_id <= s.elecciones.len()
                &&& 1 <= candidato_id <= e.candidatos.len()
                &&& contiene_usuario(s.usuarios, e.candidatos[candidato_id - 1].usuario_id)
                &&& contiene_usuario(s.usuarios, caller)
                &&& (e.es_votante(caller) || e.es_candidato(caller))
            }
            &&& r matches Ok(texto) ==> exists|j: int|
                0 <= j < s.usuarios.len() && s.usuarios[j].id == e.candidatos[candidato_id
                    - 1].usuario_id && texto == mensajes::ETIQUETA_NOMBRE@ + s.usuarios[j].nombre
                    + mensajes::ETIQUETA_APELLIDO@ + s.usuarios[j].apellido
        }),
{
    let r = s.obtener_informacion_candidato(caller, eleccion_id, candidato_id);
    if r is Ok {
        let e = s.elecciones[eleccion_id - 1];
        let uid = e.candidatos[candidato_id - 1].usuario_id;
        let j0 = choose|j: int| 0 <= j < s.usuarios.len() && s.usuarios[j].id == uid;
        lema_existe_primer_usuario(s.usuarios, uid, j0);
        let j = choose|j: int| crate::usuario::es_primer_usuario(s.usuarios, uid, j);
        assert(s.usuarios[j].id == uid);
    }
}

/// Some user of the list holds the account, so a first one does.
proof fn lema_existe_primer_usuario(l: Seq<UsuarioVista>, id: AccountId, k: int)
    requires
        0 <= k < l.len(),
        l[k].id == id,
    ensures
        exists|j: int| crate::usuario::es_primer_usuario(l, id, j),
    decreases k,
{
    if exists|j: int| 0 <= j < k && l[j].id == id {
        let j = choose|j: int| 0 <= j < k && l[j].id == id;
        lema_existe_primer_usuario(l, id, j);
    } else {
        assert(crate::usuario::es_primer_usuario(l, id, k));
    }
}

/// The report on candidates gives each candidate a block of its own, in order: its
/// number, its account in hexadecimal and the votes that it received, nothing drawn
/// from the other candidates.
pub proof fn ley_informe_por_candidato(c: Seq<CandidatoConteo>, x: CandidatoConteo)
    ensures
        informe_candidatos(c.push(x)) == informe_candidatos(c) + mensajes::SEPARADOR@
            + mensajes::ETIQUETA_ID_CANDIDATO@ + decimal(x.id as nat)
            + mensajes::ETIQUETA_ID_USUARIO@ + hex_minusculas(x.usuario_id.bytes())
            + mensajes::ETIQUETA_VOTOS_RECIBIDOS@ + decimal(x.votos_totales as nat),
        informe_candidatos(Seq::empty()) == Seq::<char>::empty(),
{
    assert(c.push(x).drop_last() =~= c);
}

/// The report on voters gives each voter a block of its own, in order: its account in
/// hexadecimal and whether it voted.
pub proof fn ley_informe_por_votante(v: Seq<Votante>, x: Votante)
    ensures
        informe_votantes(v.push(x)) == informe_votantes(v) + mensajes::SEPARADOR@
            + mensajes::ETIQUETA_ID_USUARIO@ + hex_minusculas(x.usuario_id.bytes())
            + mensajes::ETIQUETA_VOTO_EMITIDO@ + crate::texto::palabra_bool(x.voto_emitido),
        informe_votantes(Seq::empty()) == Seq::<char>::empty(),
{
    assert(v.push(x).drop_last() =~= v);
}

/// The report on a user is its name, its surname and its identity number, each under
/// its label.
pub open spec fn reporte_de_usuario(u: UsuarioVista) -> Seq<char> {
    mensajes::ETIQUETA_NOMBRE@ + u.nombre + mensajes::ETIQUETA_APELLIDO@ + u.apellido
        + mensajes::ETIQUETA_DNI@ + u.dni
}

/// The administrator's report on the next request names the user at the head of the
/// queue, with that user's own identity number.
pub proof fn ley_reporte_siguiente_pendiente(s: TrabajoFinalVista)
    requires
        s.usuarios_pendientes.len() > 0,
    ensures
        s.obtener_informacion_siguiente_usuario_pendiente(s.administrador) == Ok::<
            Seq<char>,
            Seq<char>,
        >(reporte_de_usuario(s.usuarios_pendientes[0])),
{
}

/// The report on a user looked up by account is that of a user of the list holding
/// that account, with that user's own identity number; it is refused exactly when no
/// user of the list holds the account.
pub proof fn ley_reporte_por_cuenta(lista: Seq<UsuarioVista>, id: AccountId)
    ensures
        TrabajoFinalVista::datos_de(lista, id) is Err <==> !contiene_usuario(lista, id),
        TrabajoFinalVista::datos_de(lista, id) matches Ok(texto) ==> exists|j: int|
            0 <= j < lista.len() && lista[j].id == id && texto == reporte_de_usuario(lista[j]),
{
    if contiene_usuario(lista, id) {
        let j0 = choose|j: int| 0 <= j < lista.len() && lista[j].id == id;
        lema_existe_primer_usuario(lista, id, j0);
        let j = choose|j: int| crate::usuario::es_primer_usuario(lista, id, j);
        assert(lista[j].id == id);
    }
}

/// Sign-up requests are served in order of arrival: a successful sign-up puts the new
/// user, with the given data, at the end of the queue, and processing takes the head
/// of the queue to the end of the accepted or of the refused users.
pub proof fn ley_cola_en_orden(
    s: TrabajoFinalVista,
    caller: AccountId,
    nombre: Seq<char>,
    apellido: Seq<char>,
    dni: Seq<char>,
    aceptar_usuario: bool,
)
    ensures
        s.registrarse(caller, nombre, apellido, dni).1 is Ok ==> s.registrarse(
            caller,
            nombre,
            apellido,
            dni,
        ).0.usuarios_pendientes == s.usuarios_pendientes.push(
            UsuarioVista { id: caller, nombre: nombre, apellido: apellido, dni: dni },
        ),
        s.usuarios_pendientes.len() > 0 ==> {
            let s2 = s.procesar_siguiente_usuario_pendiente(s.administrador, aceptar_usuario).0;
            &&& s2.usuarios_pendientes == s.usuarios_pendientes.drop_first()
            &&& aceptar_usuario ==> s2.usuarios == s.usuarios.push(s.usuarios_pendientes[0])
                && s2.usuarios_rechazados == s.usuarios_rechazados
            &&& !aceptar_usuario ==> s2.usuarios_rechazados == s.usuarios_rechazados.push(
                s.usuarios_pendientes[0],
            ) && s2.usuarios == s.usuarios
        },
{
}

/// Processing the queue of an election serves its head: an accepted voter joins the
/// end of the voters without a vote; an accepted candidate joins the end of the
/// candidates numbered after the last one, with no votes; a refused request joins the
/// end of the refused accounts.
pub proof fn ley_cola_de_eleccion(e: EleccionVista, aceptar_usuario: bool)
    requires
        e.usuarios_pendientes.len() > 0,
        e.candidatos.len() < u64::MAX,
    ensures
        ({
            let (e2, r) = e.procesar_siguiente_usuario_pendiente(aceptar_usuario);
            let (cuenta, tipo) = e.usuarios_pendientes[0];
            &&& r is Ok
            &&& e2.usuarios_pendientes == e.usuarios_pendientes.drop_first()
            &&& aceptar_usuario && tipo == TIPO_DE_USUARIO::VOTANTE ==> e2.votantes
                == e.votantes.push(Votante { usuario_id: cuenta, voto_emitido: false })
            &&& aceptar_usuario && tipo == TIPO_DE_USUARIO::CANDIDATO ==> e2.candidatos
                == e.candidatos.push(
                CandidatoConteo {
                    id: (e.candidatos.len() + 1) as u64,
                    usuario_id: cuenta,
                    votos_totales: 0,
                },
            )
            &&& !aceptar_usuario ==> e2.usuarios_rechazados == e.usuarios_rechazados.push(cuenta)
        }),
{
}

/// A request to take part in an open election, made before its start by an accepted
/// user who holds no place in it, joins the end of its queue with the role asked for;
/// nothing else changes.
pub proof fn ley_inscripcion(
    s: TrabajoFinalVista,
    caller: AccountId,
    eleccion_id: u64,
    tipo: TIPO_DE_USUARIO,
    t: u64,
)
    requires
        s.es_usuario_registrado(caller),
        1 <= eleccion_id <= s.elecciones.len(),
        s.elecciones[eleccion_id - 1].estado == ESTADO_ELECCION::ABIERTA,
        t <= s.elecciones[eleccion_id - 1].fecha_inicio,
        t <= s.elecciones[eleccion_id - 1].fecha_final,
        !s.elecciones[eleccion_id - 1].es_votante(caller),
        !s.elecciones[eleccion_id - 1].es_candidato(caller),
        !s.elecciones[eleccion_id - 1].es_usuario_pendiente(caller),
        !s.elecciones[eleccion_id - 1].es_usuario_rechazado(caller),
    ensures
        ({
            let (s2, r) = s.inscribir_usuario_en_eleccion(caller, eleccion_id, tipo, t);
            let e = s.elecciones[eleccion_id - 1];
            &&& r == Ok::<Seq<char>, Seq<char>>(mensajes::INSCRIPCION_PENDIENTE@)
            &&& s2 == TrabajoFinalVista {
                elecciones: s.elecciones.update(
                    eleccion_id - 1,
                    EleccionVista {
                        usuarios_pendientes: e.usuarios_pendientes.push((caller, tipo)),
                        ..e
                    },
                ),
                ..s
            }
        }),
{
}

/// The number that a sequence of decimal digits writes, most significant first.
pub open spec fn valor_decimal(t: Seq<char>) -> int
    decreases t.len(),
{
    if t.len() == 0 {
        0
    } else {
        valor_decimal(t.drop_last()) * 10 + (t.last() as int - 48)
    }
}

/// The decimal text of a number is made of digits, has no leading zero (unless it is
/// the single digit `0`), and writes that number.
pub proof fn ley_decimal(n: nat)
    ensures
        decimal(n).len() >= 1,
        forall|i: int| 0 <= i < decimal(n).len() ==> '0' <= #[trigger] decimal(n)[i] <= '9',
        decimal(n).len() > 1 ==> decimal(n)[0] != '0',
        valor_decimal(decimal(n)) == n,
    decreases n,
{
    lema_cifra(n % 10);
    if n >= 10 {
        ley_decimal(n / 10);
        lema_cifra((n / 10) % 10);
        let d = decimal(n / 10);
        assert(decimal(n) == d.push(crate::texto::cifra(n % 10)));
        assert(decimal(n).drop_last() =~= d);
        assert forall|i: int| 0 <= i < decimal(n).len() implies '0' <= #[trigger] decimal(n)[i] <= '9' by {
            if i < d.len() {
                assert(decimal(n)[i] == d[i]);
            }
        }
        assert(decimal(n)[0] == d[0]);
        if n / 10 < 10 {
            lema_cifra(n / 10);
            assert(d[0] == crate::texto::cifra(n / 10));
        } else {
            ley_decimal(n / 10 / 10);
            assert(d.len() > 1);
        }
        assert(decimal(n).last() == crate::texto::cifra(n % 10));
        assert(valor_decimal(decimal(n)) == valor_decimal(decimal(n).drop_last()) * 10 + (
        decimal(n).last() as int - 48));
        assert(valor_decimal(decimal(n)) == valor_decimal(d) * 10 + (n % 10));
        assert(n == (n / 10) * 10 + n % 10);
    } else {
        assert(decimal(n) == seq![crate::texto::cifra(n)]);
        assert(decimal(n).drop_last() =~= Seq::<char>::empty());
        assert(valor_decimal(decimal(n)) == valor_decimal(decimal(n).drop_last()) * 10 + (
        decimal(n).last() as int - 48));
    }
}

/// The digit character of a value below ten has that value.
proof fn lema_cifra(d: nat)
    requires
        d < 10,
    ensures
        crate::texto::cifra(d) as int == 48 + d,
        '0' <= crate::texto::cifra(d) <= '9',
        d >= 1 ==> crate::texto::cifra(d) != '0',
{
}

/// The lists of accounts that the registry reports hold, in order, the account of each
/// user of the list reported.
pub proof fn ley_listas_de_cuentas(l: Seq<UsuarioVista>, s: TrabajoFinalVista)
    ensures
        crate::usuario::ids_de(l).len() == l.len(),
        forall|i: int| 0 <= i < l.len() ==> #[trigger] crate::usuario::ids_de(l)[i] == l[i].id,
        s.obtener_ids_elecciones().len() == s.elecciones.len(),
        forall|i: int|
            0 <= i < s.elecciones.len() ==> #[trigger] s.obtener_ids_elecciones()[i]
                == s.elecciones[i].id,
{
}

/// The value of a lowercase hexadecimal digit.
pub open spec fn valor_hex(c: char) -> int {
    if '0' <= c <= '9' {
        c as int - 48
    } else {
        c as int - 87
    }
}

/// The hexadecimal text of an account has two lowercase digits per byte, and the
/// digits at places `2i` and `2i + 1` are the high and low halves of byte `i`.
pub proof fn ley_hex(b: Seq<u8>)
    ensures
        hex_minusculas(b).len() == 2 * b.len(),
        forall|i: int|
            0 <= i < b.len() ==> {
                let h = #[trigger] hex_minusculas(b)[2 * i];
                let l = hex_minusculas(b)[2 * i + 1];
                &&& ('0' <= h <= '9' || 'a' <= h <= 'f')
                &&& ('0' <= l <= '9' || 'a' <= l <= 'f')
                &&& valor_hex(h) * 16 + valor_hex(l) == b[i] as int
            },
    decreases b.len(),
{
    if b.len() > 0 {
        let p = b.drop_last();
        ley_hex(p);
        let x = b.last();
        let hp = hex_minusculas(p);
        let h = hex_minusculas(b);
        assert(h == hp + seq![crate::cuenta::cifra_hex(x as int / 16), crate::cuenta::cifra_hex(x as int % 16)]);
        assert forall|i: int| 0 <= i < b.len() implies {
            let hh = #[trigger] h[2 * i];
            let ll = h[2 * i + 1];
            &&& ('0' <= hh <= '9' || 'a' <= hh <= 'f')
            &&& ('0' <= ll <= '9' || 'a' <= ll <= 'f')
            &&& valor_hex(hh) * 16 + valor_hex(ll) == b[i] as int
        } by {
            if i < p.len() {
                assert(h[2 * i] == hp[2 * i]);
                assert(h[2 * i + 1] == hp[2 * i + 1]);
                assert(b[i] == p[i]);
            } else {
                assert(i == p.len());
                assert(h[2 * i] == crate::cuenta::cifra_hex(x as int / 16));
                assert(h[2 * i + 1] == crate::cuenta::cifra_hex(x as int % 16));
                assert(x as int == (x as int / 16) * 16 + x as int % 16);
            }
        }
    }
}

} // verus!
