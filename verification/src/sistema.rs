//! The registry: its administrator, its users and the queue of sign-up requests,
//! and its elections.
use vstd::prelude::*;

use crate::cuenta::{hex_de_cuenta, hex_minusculas, AccountId};
use crate::eleccion::{
    CandidatoConteo, Eleccion, EleccionVista, ESTADO_ELECCION, TIPO_DE_USUARIO, Votante,
};
use crate::fecha::{
    fecha_valida, forma_de_fecha, instante_de, milisegundos_de_fecha, parsear_fecha, FORMATO_FECHA,
};
use crate::mensajes;
use crate::texto::{
    decimal, exito, palabra_bool, rechazo, texto_bool, texto_u64, vista_respuesta, Respuesta,
};
use crate::usuario::{
    contiene_usuario, ficha, ids_de, ids_de_usuarios, lema_primer_usuario,
    posicion_usuario, primer_usuario, vistas, Usuario, UsuarioVista,
};

verus! {

/// The two refusals that several messages share.
#[allow(non_camel_case_types)]
#[derive(Clone, Copy)]
enum ERRORES {
    NO_ES_ADMINISTRADOR,
    USUARIO_NO_REGISTRADO,
}

/// The text of a shared refusal.
spec fn texto_error(e: ERRORES) -> Seq<char> {
    match e {
        ERRORES::NO_ES_ADMINISTRADOR => mensajes::NO_ES_ADMINISTRADOR@,
        ERRORES::USUARIO_NO_REGISTRADO => mensajes::USUARIO_NO_REGISTRADO@,
    }
}

impl ERRORES {
    fn to_string(&self) -> (r: String)
        ensures
            r@ == texto_error(*self),
    {
        match self {
            ERRORES::NO_ES_ADMINISTRADOR => String::from_str(mensajes::NO_ES_ADMINISTRADOR),
            ERRORES::USUARIO_NO_REGISTRADO => String::from_str(mensajes::USUARIO_NO_REGISTRADO),
        }
    }
}

/// The state of the registry.
pub struct TrabajoFinal {
    administrador: AccountId,
    registro_activado: bool,
    usuarios: Vec<Usuario>,
    usuarios_pendientes: Vec<Usuario>,
    usuarios_rechazados: Vec<Usuario>,
    elecciones: Vec<Eleccion>,
}

/// The abstract value of the registry.
pub struct TrabajoFinalVista {
    pub administrador: AccountId,
    pub registro_activado: bool,
    pub usuarios: Seq<UsuarioVista>,
    pub usuarios_pendientes: Seq<UsuarioVista>,
    pub usuarios_rechazados: Seq<UsuarioVista>,
    pub elecciones: Seq<EleccionVista>,
}

impl View for TrabajoFinal {
    type V = TrabajoFinalVista;

    closed spec fn view(&self) -> TrabajoFinalVista {
        TrabajoFinalVista {
            administrador: self.administrador,
            registro_activado: self.registro_activado,
            usuarios: vistas(self.usuarios@),
            usuarios_pendientes: vistas(self.usuarios_pendientes@),
            usuarios_rechazados: vistas(self.usuarios_rechazados@),
            elecciones: self.elecciones@.map_values(|e: Eleccion| e@),
        }
    }
}

/// The text of a number of an election or a candidate.
pub open spec fn numero(n: u64) -> Seq<char> {
    decimal(n as nat)
}

/// The block on one candidate in the report of an election.
pub open spec fn bloque_candidato(c: CandidatoConteo) -> Seq<char> {
    mensajes::SEPARADOR@ + mensajes::ETIQUETA_ID_CANDIDATO@ + numero(c.id)
        + mensajes::ETIQUETA_ID_USUARIO@ + hex_minusculas(c.usuario_id.bytes())
        + mensajes::ETIQUETA_VOTOS_RECIBIDOS@ + numero(c.votos_totales)
}

/// The blocks on the candidates, in order.
pub open spec fn informe_candidatos(c: Seq<CandidatoConteo>) -> Seq<char>
    decreases c.len(),
{
    if c.len() == 0 {
        Seq::empty()
    } else {
        informe_candidatos(c.drop_last()) + bloque_candidato(c.last())
    }
}

/// The block on one voter in the report of an election.
pub open spec fn bloque_votante(v: Votante) -> Seq<char> {
    mensajes::SEPARADOR@ + mensajes::ETIQUETA_ID_USUARIO@ + hex_minusculas(v.usuario_id.bytes())
        + mensajes::ETIQUETA_VOTO_EMITIDO@ + palabra_bool(v.voto_emitido)
}

/// The blocks on the voters, in order.
pub open spec fn informe_votantes(v: Seq<Votante>) -> Seq<char>
    decreases v.len(),
{
    if v.len() == 0 {
        Seq::empty()
    } else {
        informe_votantes(v.drop_last()) + bloque_votante(v.last())
    }
}

/// The line that names the stage of an election.
pub open spec fn linea_estado(e: ESTADO_ELECCION) -> Seq<char> {
    match e {
        ESTADO_ELECCION::CERRADA => mensajes::ESTADO_CERRADA@,
        ESTADO_ELECCION::ABIERTA => mensajes::ESTADO_ABIERTA@,
        ESTADO_ELECCION::INICIADA => mensajes::ESTADO_INICIADA@,
        ESTADO_ELECCION::FINALIZADA => mensajes::ESTADO_FINALIZADA@,
    }
}

/// The election created with number `id` between the two instants.
pub open spec fn eleccion_nueva(id: u64, fecha_inicio: u64, fecha_final: u64) -> EleccionVista {
    EleccionVista {
        id: id,
        candidatos: Seq::empty(),
        votantes: Seq::empty(),
        usuarios_rechazados: Seq::empty(),
        usuarios_pendientes: Seq::empty(),
        estado: ESTADO_ELECCION::CERRADA,
        fecha_inicio: fecha_inicio,
        fecha_final: fecha_final,
    }
}

impl TrabajoFinalVista {
    pub open spec fn es_administrador(self, caller: AccountId) -> bool {
        caller == self.administrador
    }

    pub open spec fn es_usuario_registrado(self, id: AccountId) -> bool {
        contiene_usuario(self.usuarios, id)
    }

    pub open spec fn es_usuario_pendiente(self, id: AccountId) -> bool {
        contiene_usuario(self.usuarios_pendientes, id)
    }

    pub open spec fn es_usuario_rechazado(self, id: AccountId) -> bool {
        contiene_usuario(self.usuarios_rechazados, id)
    }

    /// Elections are numbered from 1 to their count.
    pub open spec fn existe_eleccion(self, eleccion_id: u64) -> bool {
        1 <= eleccion_id <= self.elecciones.len()
    }

    /// The election numbered `eleccion_id`.
    pub open spec fn eleccion(self, eleccion_id: u64) -> EleccionVista {
        self.elecciones[eleccion_id - 1]
    }

    /// The registry with the election numbered `eleccion_id` replaced by `e`.
    pub open spec fn con_eleccion(self, eleccion_id: u64, e: EleccionVista) -> TrabajoFinalVista {
        TrabajoFinalVista { elecciones: self.elecciones.update(eleccion_id - 1, e), ..self }
    }

    /// Sign-up of `caller`: it joins the end of the queue of requests.
    pub open spec fn registrarse(
        self,
        caller: AccountId,
        nombre: Seq<char>,
        apellido: Seq<char>,
        dni: Seq<char>,
    ) -> (TrabajoFinalVista, Respuesta) {
        if !self.registro_activado {
            (self, Err(mensajes::REGISTRO_NO_ACTIVADO@))
        } else if self.es_administrador(caller) {
            (self, Err(mensajes::ADMINISTRADOR_NO_SE_REGISTRA@))
        } else if self.es_usuario_rechazado(caller) {
            (self, Err(mensajes::SOLICITUD_YA_RECHAZADA@))
        } else if self.es_usuario_registrado(caller) {
            (self, Err(mensajes::YA_REGISTRADO@))
        } else if self.es_usuario_pendiente(caller) {
            (self, Err(mensajes::YA_PENDIENTE@))
        } else {
            (
                TrabajoFinalVista {
                    usuarios_pendientes: self.usuarios_pendientes.push(
                        UsuarioVista { id: caller, nombre: nombre, apellido: apellido, dni: dni },
                    ),
                    ..self
                },
                Ok(mensajes::REGISTRO_EXITOSO@),
            )
        }
    }

    /// The report on the head of the queue of requests, for the administrator.
    pub open spec fn obtener_informacion_siguiente_usuario_pendiente(
        self,
        caller: AccountId,
    ) -> Respuesta {
        if !self.es_administrador(caller) {
            Err(mensajes::NO_ES_ADMINISTRADOR@)
        } else if self.usuarios_pendientes.len() == 0 {
            Err(mensajes::NO_HAY_PENDIENTES@)
        } else {
            Ok(ficha(self.usuarios_pendientes[0]))
        }
    }

    /// The administrator takes the head of the queue of requests and accepts it as a
    /// user or records it as turned down.
    pub open spec fn procesar_siguiente_usuario_pendiente(
        self,
        caller: AccountId,
        aceptar_usuario: bool,
    ) -> (TrabajoFinalVista, Respuesta) {
        if !self.es_administrador(caller) {
            (self, Err(mensajes::NO_ES_ADMINISTRADOR@))
        } else if self.usuarios_pendientes.len() == 0 {
            (self, Err(mensajes::NO_HAY_PENDIENTES@))
        } else {
            let usuario = self.usuarios_pendientes[0];
            let resto = self.usuarios_pendientes.drop_first();
            if aceptar_usuario {
                (
                    TrabajoFinalVista {
                        usuarios_pendientes: resto,
                        usuarios: self.usuarios.push(usuario),
                        ..self
                    },
                    Ok(mensajes::USUARIO_AGREGADO@),
                )
            } else {
                (
                    TrabajoFinalVista {
                        usuarios_pendientes: resto,
                        usuarios_rechazados: self.usuarios_rechazados.push(usuario),
                        ..self
                    },
                    Ok(mensajes::USUARIO_RECHAZADO@),
                )
            }
        }
    }

    /// The report on the first user of `lista` with the account `id`.
    pub open spec fn datos_de(lista: Seq<UsuarioVista>, id: AccountId) -> Respuesta {
        if contiene_usuario(lista, id) {
            Ok(ficha(primer_usuario(lista, id)))
        } else {
            Err(mensajes::NO_HAY_USUARIO_CON_ID@)
        }
    }

    pub open spec fn activar_registro(self, caller: AccountId) -> (TrabajoFinalVista, Respuesta) {
        if !self.es_administrador(caller) {
            (self, Err(mensajes::NO_ES_ADMINISTRADOR@))
        } else if self.registro_activado {
            (self, Err(mensajes::REGISTRO_YA_ACTIVADO@))
        } else {
            (
                TrabajoFinalVista { registro_activado: true, ..self },
                Ok(mensajes::REGISTRO_ACTIVADO@),
            )
        }
    }

    pub open spec fn desactivar_registro(self, caller: AccountId) -> (
        TrabajoFinalVista,
        Respuesta,
    ) {
        if !self.es_administrador(caller) {
            (self, Err(mensajes::NO_ES_ADMINISTRADOR@))
        } else if !self.registro_activado {
            (self, Err(mensajes::REGISTRO_YA_DESACTIVADO@))
        } else {
            (
                TrabajoFinalVista { registro_activado: false, ..self },
                Ok(mensajes::REGISTRO_DESACTIVADO@),
            )
        }
    }

    /// The administrator creates an election between the two instants, given as UTC
    /// milliseconds read from the dates (`None` where a date could not be read). It is
    /// numbered after the last one and starts closed.
    pub open spec fn crear_eleccion(
        self,
        caller: AccountId,
        fecha_inicial: Option<i64>,
        fecha_final: Option<i64>,
    ) -> (TrabajoFinalVista, Respuesta) {
        if !self.es_administrador(caller) {
            (self, Err(mensajes::NO_ES_ADMINISTRADOR@))
        } else if fecha_inicial is None {
            (self, Err(mensajes::FECHA_INICIAL_INVALIDA@))
        } else if fecha_final is None {
            (self, Err(mensajes::FECHA_FINAL_INVALIDA@))
        } else if self.elecciones.len() >= u64::MAX {
            (self, Err(mensajes::OVERFLOW_ID_ELECCION@))
        } else {
            let id = (self.elecciones.len() + 1) as u64;
            (
                TrabajoFinalVista {
                    elecciones: self.elecciones.push(
                        eleccion_nueva(
                            id,
                            fecha_inicial.unwrap() as u64,
                            fecha_final.unwrap() as u64,
                        ),
                    ),
                    ..self
                },
                Ok(mensajes::ELECCION_CREADA@ + numero(id)),
            )
        }
    }

    /// The administrator closes an open election before its voting time.
    pub open spec fn cerrar_eleccion(self, caller: AccountId, eleccion_id: u64, block_timestamp: u64) -> (
        TrabajoFinalVista,
        Respuesta,
    ) {
        if !self.es_administrador(caller) {
            (self, Err(mensajes::NO_ES_ADMINISTRADOR@))
        } else if !self.existe_eleccion(eleccion_id) {
            (self, Err(mensajes::ELECCION_NO_EXISTE@))
        } else {
            let e = self.eleccion(eleccion_id);
            if e.fecha_inicio < block_timestamp {
                (self, Err(mensajes::EN_FECHA_DE_VOTACION@))
            } else {
                match e.estado {
                    ESTADO_ELECCION::CERRADA => (self, Err(mensajes::YA_EN_ESTADO_CERRADA@)),
                    ESTADO_ELECCION::INICIADA => (self, Err(mensajes::EN_ESTADO_DE_VOTACION@)),
                    ESTADO_ELECCION::FINALIZADA => (self, Err(mensajes::ELECCION_YA_CERRO@)),
                    ESTADO_ELECCION::ABIERTA => (
                        self.con_eleccion(eleccion_id, e.con_estado(ESTADO_ELECCION::CERRADA)),
                        Ok(mensajes::ELECCION_CERRADA@ + numero(e.id)),
                    ),
                }
            }
        }
    }

    /// The administrator opens enrolment in a closed election before its voting time.
    pub open spec fn abrir_eleccion(self, caller: AccountId, eleccion_id: u64, block_timestamp: u64) -> (
        TrabajoFinalVista,
        Respuesta,
    ) {
        if !self.es_administrador(caller) {
            (self, Err(mensajes::NO_ES_ADMINISTRADOR@))
        } else if !self.existe_eleccion(eleccion_id) {
            (self, Err(mensajes::ELECCION_NO_EXISTE@))
        } else {
            let e = self.eleccion(eleccion_id);
            if e.fecha_inicio < block_timestamp {
                (self, Err(mensajes::EN_FECHA_DE_VOTACION@))
            } else {
                match e.estado {
                    ESTADO_ELECCION::ABIERTA => (self, Err(mensajes::YA_EN_ESTADO@)),
                    ESTADO_ELECCION::INICIADA => (self, Err(mensajes::EN_ESTADO_DE_VOTACION@)),
                    ESTADO_ELECCION::FINALIZADA => (self, Err(mensajes::ELECCION_YA_CERRO@)),
                    ESTADO_ELECCION::CERRADA => (
                        self.con_eleccion(eleccion_id, e.con_estado(ESTADO_ELECCION::ABIERTA)),
                        Ok(mensajes::ELECCION_ABIERTA@ + numero(e.id)),
                    ),
                }
            }
        }
    }

    /// The administrator starts the voting of an election within its dates.
    pub open spec fn iniciar_eleccion(self, caller: AccountId, eleccion_id: u64, block_timestamp: u64) -> (
        TrabajoFinalVista,
        Respuesta,
    ) {
        if !self.es_administrador(caller) {
            (self, Err(mensajes::NO_ES_ADMINISTRADOR@))
        } else if !self.existe_eleccion(eleccion_id) {
            (self, Err(mensajes::ELECCION_NO_EXISTE@))
        } else {
            let e = self.eleccion(eleccion_id);
            if e.fecha_inicio > block_timestamp {
                (self, Err(mensajes::NO_ES_FECHA_DE_INICIO@))
            } else if e.fecha_final < block_timestamp {
                (self, Err(mensajes::YA_FINALIZO_NO_INICIA@))
            } else {
                match e.estado {
                    ESTADO_ELECCION::INICIADA => (self, Err(mensajes::YA_EN_ESTADO@)),
                    ESTADO_ELECCION::FINALIZADA => (self, Err(mensajes::ELECCION_YA_CERRO@)),
                    _ => (
                        self.con_eleccion(eleccion_id, e.con_estado(ESTADO_ELECCION::INICIADA)),
                        Ok(mensajes::ELECCION_INICIADA@ + numero(e.id)),
                    ),
                }
            }
        }
    }

    /// The administrator ends an election once its final date is reached.
    pub open spec fn finalizar_eleccion(self, caller: AccountId, eleccion_id: u64, block_timestamp: u64) -> (
        TrabajoFinalVista,
        Respuesta,
    ) {
        if !self.es_administrador(caller) {
            (self, Err(mensajes::NO_ES_ADMINISTRADOR@))
        } else if !self.existe_eleccion(eleccion_id) {
            (self, Err(mensajes::ELECCION_NO_EXISTE@))
        } else {
            let e = self.eleccion(eleccion_id);
            if e.fecha_final > block_timestamp {
                (self, Err(mensajes::NO_ES_FECHA_DE_FIN@))
            } else if e.estado == ESTADO_ELECCION::FINALIZADA {
                (self, Err(mensajes::YA_EN_ESTADO_CERRADA@))
            } else {
                (
                    self.con_eleccion(eleccion_id, e.con_estado(ESTADO_ELECCION::FINALIZADA)),
                    Ok(mensajes::ELECCION_FINALIZADA@ + numero(e.id)),
                )
            }
        }
    }

    /// The numbers of the elections, in order.
    pub open spec fn obtener_ids_elecciones(self) -> Seq<u64> {
        self.elecciones.map_values(|e: EleccionVista| e.id)
    }

    /// The report on an election: number, stage and dates.
    pub open spec fn obtener_datos_eleccion_por_id(self, eleccion_id: u64) -> Respuesta {
        if !self.existe_eleccion(eleccion_id) {
            Err(mensajes::ELECCION_NO_EXISTE@)
        } else {
            let e = self.eleccion(eleccion_id);
            Ok(
                mensajes::ETIQUETA_ID@ + numero(e.id) + linea_estado(e.estado)
                    + mensajes::ETIQUETA_FECHA_INICIO@ + numero(e.fecha_inicio)
                    + mensajes::ETIQUETA_FECHA_FINAL@ + numero(e.fecha_final),
            )
        }
    }

    /// The report on the candidates of an election and their votes, refused while
    /// the voting is under way.
    pub open spec fn obtener_candidatos_eleccion_por_id(self, eleccion_id: u64) -> Respuesta {
        if !self.existe_eleccion(eleccion_id) {
            Err(mensajes::ELECCION_NO_EXISTE@)
        } else {
            let e = self.eleccion(eleccion_id);
            if e.estado == ESTADO_ELECCION::INICIADA {
                Err(mensajes::ELECCION_NO_FINALIZO@)
            } else {
                Ok(mensajes::ETIQUETA_ID@ + numero(e.id) + informe_candidatos(e.candidatos))
            }
        }
    }

    /// The report on the voters of an election, refused while the voting is under way.
    pub open spec fn obtener_votantes_eleccion_por_id(self, eleccion_id: u64) -> Respuesta {
        if !self.existe_eleccion(eleccion_id) {
            Err(mensajes::ELECCION_NO_EXISTE@)
        } else {
            let e = self.eleccion(eleccion_id);
            if e.estado == ESTADO_ELECCION::INICIADA {
                Err(mensajes::ELECCION_NO_FINALIZO@)
            } else {
                Ok(mensajes::ETIQUETA_ID@ + numero(e.id) + informe_votantes(e.votantes))
            }
        }
    }

    /// The next request of the queue of an election, for the administrator.
    pub open spec fn obtener_siguiente_usuario_pendiente_en_una_eleccion(
        self,
        caller: AccountId,
        eleccion_id: u64,
    ) -> Respuesta {
        if !self.es_administrador(caller) {
            Err(mensajes::NO_ES_ADMINISTRADOR@)
        } else if !self.existe_eleccion(eleccion_id) {
            Err(mensajes::ELECCION_NO_ENCONTRADA@)
        } else {
            let e = self.eleccion(eleccion_id);
            if e.usuarios_pendientes.len() == 0 {
                Err(mensajes::NO_HAY_PENDIENTES@)
            } else {
                let (usuario, tipo) = e.usuarios_pendientes[0];
                Ok(
                    mensajes::ETIQUETA_USUARIO@ + hex_minusculas(usuario.bytes()) + match tipo {
                        TIPO_DE_USUARIO::VOTANTE => mensajes::QUIERE_SER_VOTANTE@,
                        TIPO_DE_USUARIO::CANDIDATO => mensajes::QUIERE_SER_CANDIDATO@,
                    },
                )
            }
        }
    }

    /// The administrator processes the next request of the queue of an election.
    pub open spec fn procesar_usuarios_en_una_eleccion(
        self,
        caller: AccountId,
        eleccion_id: u64,
        aceptar_usuario: bool,
    ) -> (TrabajoFinalVista, Respuesta) {
        if !self.es_administrador(caller) {
            (self, Err(mensajes::NO_ES_ADMINISTRADOR@))
        } else if !self.existe_eleccion(eleccion_id) {
            (self, Err(mensajes::ELECCION_NO_ENCONTRADA@))
        } else {
            let (e, r) = self.eleccion(eleccion_id).procesar_siguiente_usuario_pendiente(
                aceptar_usuario,
            );
            (self.con_eleccion(eleccion_id, e), r)
        }
    }

    /// Whether an election takes requests at `block_timestamp`; an open election whose
    /// dates have come is moved on to the stage that they call for.
    pub open spec fn validar_estado_eleccion_para_inscripciones(
        self,
        eleccion_id: u64,
        block_timestamp: u64,
    ) -> (TrabajoFinalVista, Result<(), Seq<char>>) {
        if !self.existe_eleccion(eleccion_id) {
            (self, Err(mensajes::NO_EXISTE_ELECCION_CON_ID@))
        } else {
            let e = self.eleccion(eleccion_id);
            if e.estado != ESTADO_ELECCION::ABIERTA {
                (self, Err(mensajes::INSCRIPCION_NO_ABIERTA@))
            } else if e.fecha_final < block_timestamp {
                (
                    self.con_eleccion(eleccion_id, e.con_estado(ESTADO_ELECCION::FINALIZADA)),
                    Err(mensajes::FINALIZO_NO_INSCRIBE@),
                )
            } else if e.fecha_inicio < block_timestamp {
                (
                    self.con_eleccion(eleccion_id, e.con_estado(ESTADO_ELECCION::INICIADA)),
                    Err(mensajes::COMENZO_NO_INSCRIBE@),
                )
            } else {
                (self, Ok(()))
            }
        }
    }

    /// A registered user asks to take part in an election, as voter or candidate.
    pub open spec fn inscribir_usuario_en_eleccion(
        self,
        caller: AccountId,
        eleccion_id: u64,
        tipo: TIPO_DE_USUARIO,
        block_timestamp: u64,
    ) -> (TrabajoFinalVista, Respuesta) {
        if !self.es_usuario_registrado(caller) {
            (self, Err(mensajes::USUARIO_NO_REGISTRADO@))
        } else {
            let (s, v) = self.validar_estado_eleccion_para_inscripciones(
                eleccion_id,
                block_timestamp,
            );
            match v {
                Err(m) => (s, Err(m)),
                Ok(_) => {
                    let e = s.eleccion(eleccion_id);
                    if e.es_usuario_rechazado(caller) {
                        (s, Err(mensajes::SOLICITUD_YA_RECHAZADA@))
                    } else if e.es_usuario_pendiente(caller) {
                        (s, Err(mensajes::YA_PENDIENTE@))
                    } else if e.es_votante(caller) {
                        (s, Err(mensajes::YA_ES_VOTANTE@))
                    } else if e.es_candidato(caller) {
                        (s, Err(mensajes::YA_ES_CANDIDATO@))
                    } else {
                        (
                            s.con_eleccion(
                                eleccion_id,
                                EleccionVista {
                                    usuarios_pendientes: e.usuarios_pendientes.push(
                                        (caller, tipo),
                                    ),
                                    ..e
                                },
                            ),
                            Ok(mensajes::INSCRIPCION_PENDIENTE@),
                        )
                    }
                },
            }
        }
    }

    /// Name and surname of the registered user behind a candidate of an election. The
    /// answer is given only to an accepted user who is a voter or a candidate of that
    /// election; the checks on the election and the candidate come first.
    pub open spec fn obtener_informacion_candidato(
        self,
        caller: AccountId,
        eleccion_id: u64,
        candidato_id: u64,
    ) -> Respuesta {
        if !self.existe_eleccion(eleccion_id) {
            Err(mensajes::NO_EXISTE_ELECCION_CON_ID@)
        } else {
            let e = self.eleccion(eleccion_id);
            if !e.existe_candidato(candidato_id) {
                Err(mensajes::NO_EXISTE_CANDIDATO_CON_ESE_ID@)
            } else {
                let usuario_id = e.candidatos[candidato_id - 1].usuario_id;
                if !self.es_usuario_registrado(usuario_id) {
                    Err(mensajes::NO_EXISTE_USUARIO_CANDIDATO@)
                } else if !self.es_usuario_registrado(caller) {
                    Err(mensajes::USUARIO_NO_REGISTRADO@)
                } else if !e.es_votante(caller) && !e.es_candidato(caller) {
                    Err(mensajes::NO_REGISTRADO_EN_ELECCION@)
                } else {
                    let u = primer_usuario(self.usuarios, usuario_id);
                    Ok(
                        mensajes::ETIQUETA_NOMBRE@ + u.nombre + mensajes::ETIQUETA_APELLIDO@
                            + u.apellido,
                    )
                }
            }
        }
    }

    /// Whether the dates of an election allow a vote at `block_timestamp`; the election
    /// is moved on to the stage that its dates call for, except that a finished election
    /// keeps its stage.
    pub open spec fn validar_estado_eleccion_para_votaciones(
        self,
        eleccion_id: u64,
        block_timestamp: u64,
    ) -> (TrabajoFinalVista, Result<(), Seq<char>>) {
        if !self.existe_eleccion(eleccion_id) {
            (self, Err(mensajes::NO_EXISTE_ELECCION_CON_ID@))
        } else {
            let e = self.eleccion(eleccion_id);
            if e.fecha_final < block_timestamp {
                (
                    self.con_eleccion(eleccion_id, e.con_estado(ESTADO_ELECCION::FINALIZADA)),
                    Err(mensajes::FINALIZO_NO_VOTA@),
                )
            } else if e.fecha_inicio > block_timestamp {
                (self, Err(mensajes::NO_INICIO_NO_VOTA@))
            } else if e.fecha_inicio < block_timestamp && e.estado != ESTADO_ELECCION::FINALIZADA {
                (
                    self.con_eleccion(eleccion_id, e.con_estado(ESTADO_ELECCION::INICIADA)),
                    Ok(()),
                )
            } else {
                (self, Ok(()))
            }
        }
    }

    /// A registered voter of an election votes for one of its candidates. A vote that
    /// passes every check is still refused, with nothing changed, when the election is
    /// finished.
    pub open spec fn votar_a_candidato(
        self,
        caller: AccountId,
        eleccion_id: u64,
        candidato_id: u64,
        block_timestamp: u64,
    ) -> (TrabajoFinalVista, Respuesta) {
        if !self.es_usuario_registrado(caller) {
            (self, Err(mensajes::USUARIO_NO_REGISTRADO@))
        } else {
            let (s, v) = self.validar_estado_eleccion_para_votaciones(eleccion_id, block_timestamp);
            match v {
                Err(m) => (s, Err(m)),
                Ok(_) => {
                    let e = s.eleccion(eleccion_id);
                    if e.es_usuario_rechazado(caller) {
                        (s, Err(mensajes::SOLICITUD_RECHAZADA@))
                    } else if e.es_usuario_pendiente(caller) {
                        (s, Err(mensajes::EN_COLA_DE_PENDIENTES@))
                    } else if !e.es_votante(caller) {
                        (s, Err(mensajes::NO_ES_VOTANTE@))
                    } else if e.es_candidato(caller) {
                        (s, Err(mensajes::ES_CANDIDATO@))
                    } else {
                        let (e2, r) = e.votar_candidato(caller, candidato_id);
                        if r is Ok && e.estado == ESTADO_ELECCION::FINALIZADA {
                            (s, Err(mensajes::FINALIZO_NO_VOTA@))
                        } else {
                            (s.con_eleccion(eleccion_id, e2), r)
                        }
                    }
                },
            }
        }
    }

    pub open spec fn transferir_administrador(self, caller: AccountId, id: AccountId) -> (
        TrabajoFinalVista,
        Respuesta,
    ) {
        if !self.es_administrador(caller) {
            (self, Err(mensajes::NO_ES_ADMINISTRADOR@))
        } else {
            (
                TrabajoFinalVista { administrador: id, ..self },
                Ok(mensajes::ADMINISTRADOR_TRANSFERIDO@),
            )
        }
    }
}

/// A success whose text ends in the decimal numeral of `n`.
fn con_numero(m: &str, n: u64) -> (r: Result<String, String>)
    ensures
        vista_respuesta(r) == Ok::<Seq<char>, Seq<char>>(m@ + numero(n)),
{
    let mut s = String::from_str(m);
    s.append(texto_u64(n).as_str());
    Ok(s)
}

/// A refusal with the given text, for the checks that hand back a position.
fn rechazo_en(m: &str) -> (r: Result<usize, String>)
    ensures
        r matches Err(e) && e@ == m@,
{
    Err(String::from_str(m))
}

impl TrabajoFinal {
    /// A registry administered by `administrador`, with sign-up off, no users and no
    /// elections.
    pub fn new(administrador: AccountId) -> (r: TrabajoFinal)
        ensures
            r@ == (TrabajoFinalVista {
                administrador: administrador,
                registro_activado: false,
                usuarios: Seq::empty(),
                usuarios_pendientes: Seq::empty(),
                usuarios_rechazados: Seq::empty(),
                elecciones: Seq::empty(),
            }),
    {
        let r = TrabajoFinal {
            administrador,
            registro_activado: false,
            usuarios: Vec::new(),
            usuarios_pendientes: Vec::new(),
            usuarios_rechazados: Vec::new(),
            elecciones: Vec::new(),
        };
        assert(r@.usuarios =~= Seq::empty());
        assert(r@.usuarios_pendientes =~= Seq::empty());
        assert(r@.usuarios_rechazados =~= Seq::empty());
        assert(r@.elecciones =~= Seq::empty());
        r
    }

    /// A registry holding exactly the given parts, as stored by the runtime.
    pub fn desde_partes(
        administrador: AccountId,
        registro_activado: bool,
        usuarios: Vec<Usuario>,
        usuarios_pendientes: Vec<Usuario>,
        usuarios_rechazados: Vec<Usuario>,
        elecciones: Vec<Eleccion>,
    ) -> (r: TrabajoFinal)
        ensures
            r@ == (TrabajoFinalVista {
                administrador: administrador,
                registro_activado: registro_activado,
                usuarios: vistas(usuarios@),
                usuarios_pendientes: vistas(usuarios_pendientes@),
                usuarios_rechazados: vistas(usuarios_rechazados@),
                elecciones: elecciones@.map_values(|e: Eleccion| e@),
            }),
    {
        TrabajoFinal {
            administrador,
            registro_activado,
            usuarios,
            usuarios_pendientes,
            usuarios_rechazados,
            elecciones,
        }
    }

    /// The parts of the registry, for the runtime to store: administrator, whether
    /// sign-up is on, accepted, waiting and refused users, and elections.
    pub fn en_partes(self) -> (r: (AccountId, bool, Vec<Usuario>, Vec<Usuario>, Vec<Usuario>, Vec<Eleccion>))
        ensures
            r.0 == self@.administrador,
            r.1 == self@.registro_activado,
            vistas(r.2@) == self@.usuarios,
            vistas(r.3@) == self@.usuarios_pendientes,
            vistas(r.4@) == self@.usuarios_rechazados,
            r.5@.map_values(|e: Eleccion| e@) == self@.elecciones,
    {
        (
            self.administrador,
            self.registro_activado,
            self.usuarios,
            self.usuarios_pendientes,
            self.usuarios_rechazados,
            self.elecciones,
        )
    }

    fn es_administrador(&self, caller: &AccountId) -> (r: bool)
        ensures
            r == self@.es_administrador(*caller),
    {
        *caller == self.administrador
    }

    fn es_usuario_registrado(&self, id: &AccountId) -> (r: bool)
        ensures
            r == self@.es_usuario_registrado(*id),
    {
        posicion_usuario(&self.usuarios, id).is_some()
    }

    fn es_usuario_pendiente(&self, id: &AccountId) -> (r: bool)
        ensures
            r == self@.es_usuario_pendiente(*id),
    {
        posicion_usuario(&self.usuarios_pendientes, id).is_some()
    }

    fn es_usuario_rechazado(&self, id: &AccountId) -> (r: bool)
        ensures
            r == self@.es_usuario_rechazado(*id),
    {
        posicion_usuario(&self.usuarios_rechazados, id).is_some()
    }

    /// Signs `caller` up: the request waits in the queue for the administrator.
    /// A request that was turned down cannot be made again.
    pub fn registrarse(&mut self, caller: AccountId, nombre: String, apellido: String, dni: String) -> (r: Result<String, String>)
        ensures
            (final(self)@, vista_respuesta(r)) == old(self)@.registrarse(
                caller,
                nombre@,
                apellido@,
                dni@,
            ),
    {
        if !self.registro_activado {
            return rechazo(mensajes::REGISTRO_NO_ACTIVADO);
        }
        if self.es_administrador(&caller) {
            return rechazo(mensajes::ADMINISTRADOR_NO_SE_REGISTRA);
        }
        if self.es_usuario_rechazado(&caller) {
            return rechazo(mensajes::SOLICITUD_YA_RECHAZADA);
        }
        if self.es_usuario_registrado(&caller) {
            return rechazo(mensajes::YA_REGISTRADO);
        }
        if self.es_usuario_pendiente(&caller) {
            return rechazo(mensajes::YA_PENDIENTE);
        }
        let usuario = Usuario::nuevo(caller, nombre, apellido, dni);
        self.usuarios_pendientes.push(usuario);
        assert(self@.usuarios_pendientes =~= old(self)@.usuarios_pendientes.push(usuario@));
        exito(mensajes::REGISTRO_EXITOSO)
    }

    /// The report on the next request of the queue, for the administrator.
    pub fn obtener_informacion_siguiente_usuario_pendiente(&self, caller: AccountId) -> (r: Result<String, String>)
        ensures
            vista_respuesta(r) == self@.obtener_informacion_siguiente_usuario_pendiente(caller),
    {
        if !self.es_administrador(&caller) {
            return Err(ERRORES::NO_ES_ADMINISTRADOR.to_string());
        }
        if self.usuarios_pendientes.len() == 0 {
            return rechazo(mensajes::NO_HAY_PENDIENTES);
        }
        Ok(self.usuarios_pendientes[0].ficha())
    }

    /// The administrator accepts or turns down the next request of the queue.
    /// An accepted user may use the system; a refused one cannot sign up again.
    pub fn procesar_siguiente_usuario_pendiente(&mut self, caller: AccountId, aceptar_usuario: bool) -> (r: Result<String, String>)
        ensures
            (final(self)@, vista_respuesta(r)) == old(self)@.procesar_siguiente_usuario_pendiente(
                caller,
                aceptar_usuario,
            ),
    {
        if !self.es_administrador(&caller) {
            return Err(ERRORES::NO_ES_ADMINISTRADOR.to_string());
        }
        if self.usuarios_pendientes.len() == 0 {
            return rechazo(mensajes::NO_HAY_PENDIENTES);
        }
        let usuario = self.usuarios_pendientes.remove(0);
        assert(self@.usuarios_pendientes =~= old(self)@.usuarios_pendientes.drop_first());
        if aceptar_usuario {
            self.usuarios.push(usuario);
            assert(self@.usuarios =~= old(self)@.usuarios.push(usuario@));
            return exito(mensajes::USUARIO_AGREGADO);
        }
        self.usuarios_rechazados.push(usuario);
        assert(self@.usuarios_rechazados =~= old(self)@.usuarios_rechazados.push(usuario@));
        exito(mensajes::USUARIO_RECHAZADO)
    }

    /// The accounts that wait for approval, in the order of the queue.
    pub fn obtener_usuarios_pendientes(&self) -> (r: Vec<AccountId>)
        ensures
            r@ == ids_de(self@.usuarios_pendientes),
    {
        ids_de_usuarios(&self.usuarios_pendientes)
    }

    /// The accounts of the accepted users, in the order of acceptance.
    pub fn obtener_usuarios(&self) -> (r: Vec<AccountId>)
        ensures
            r@ == ids_de(self@.usuarios),
    {
        ids_de_usuarios(&self.usuarios)
    }

    /// The accounts of the refused users, in the order of refusal.
    pub fn obtener_usuarios_rechazados(&self) -> (r: Vec<AccountId>)
        ensures
            r@ == ids_de(self@.usuarios_rechazados),
    {
        ids_de_usuarios(&self.usuarios_rechazados)
    }

    fn datos_de(lista: &Vec<Usuario>, id_usuario: &AccountId) -> (r: Result<String, String>)
        ensures
            vista_respuesta(r) == TrabajoFinalVista::datos_de(vistas(lista@), *id_usuario),
    {
        match posicion_usuario(lista, id_usuario) {
            Some(i) => {
                proof {
                    lema_primer_usuario(vistas(lista@), *id_usuario, i as int);
                }
                Ok(lista[i].ficha())
            },
            None => rechazo(mensajes::NO_HAY_USUARIO_CON_ID),
        }
    }

    /// The report on the waiting request of account `id_usuario`.
    pub fn obtener_datos_usuario_pendiente_por_id(&mut self, id_usuario: AccountId) -> (r: Result<String, String>)
        ensures
            final(self)@ == old(self)@,
            vista_respuesta(r) == TrabajoFinalVista::datos_de(
                old(self)@.usuarios_pendientes,
                id_usuario,
            ),
    {
        Self::datos_de(&self.usuarios_pendientes, &id_usuario)
    }

    /// The report on the accepted user of account `id_usuario`.
    pub fn obtener_datos_usuario_por_id(&mut self, id_usuario: AccountId) -> (r: Result<String, String>)
        ensures
            final(self)@ == old(self)@,
            vista_respuesta(r) == TrabajoFinalVista::datos_de(old(self)@.usuarios, id_usuario),
    {
        Self::datos_de(&self.usuarios, &id_usuario)
    }

    /// The report on the refused user of account `id_usuario`.
    pub fn obtener_datos_usuario_rechazado_por_id(&mut self, id_usuario: AccountId) -> (r: Result<String, String>)
        ensures
            final(self)@ == old(self)@,
            vista_respuesta(r) == TrabajoFinalVista::datos_de(
                old(self)@.usuarios_rechazados,
                id_usuario,
            ),
    {
        Self::datos_de(&self.usuarios_rechazados, &id_usuario)
    }

    /// The administrator turns sign-up on.
    pub fn activar_registro(&mut self, caller: AccountId) -> (r: Result<String, String>)
        ensures
            (final(self)@, vista_respuesta(r)) == old(self)@.activar_registro(caller),
    {
        if !self.es_administrador(&caller) {
            return Err(ERRORES::NO_ES_ADMINISTRADOR.to_string());
        }
        if self.registro_activado {
            return rechazo(mensajes::REGISTRO_YA_ACTIVADO);
        }
        self.registro_activado = true;
        exito(mensajes::REGISTRO_ACTIVADO)
    }

    /// The administrator turns sign-up off.
    pub fn desactivar_registro(&mut self, caller: AccountId) -> (r: Result<String, String>)
        ensures
            (final(self)@, vista_respuesta(r)) == old(self)@.desactivar_registro(caller),
    {
        if !self.es_administrador(&caller) {
            return Err(ERRORES::NO_ES_ADMINISTRADOR.to_string());
        }
        if !self.registro_activado {
            return rechazo(mensajes::REGISTRO_YA_DESACTIVADO);
        }
        self.registro_activado = false;
        exito(mensajes::REGISTRO_DESACTIVADO)
    }

    fn existe_eleccion(&self, eleccion_id: u64) -> (r: bool)
        ensures
            r == self@.existe_eleccion(eleccion_id),
    {
        if eleccion_id >= 1 && eleccion_id <= self.elecciones.len() as u64 {
            return true;
        }
        false
    }

    /// The position in storage of the election numbered `eleccion_id`.
    fn obtener_eleccion_por_id(&self, eleccion_id: u64) -> (r: Option<usize>)
        ensures
            match r {
                Some(i) => self@.existe_eleccion(eleccion_id) && i == eleccion_id - 1,
                None => !self@.existe_eleccion(eleccion_id),
            },
    {
        if self.existe_eleccion(eleccion_id) {
            let n = self.elecciones.len();
            assert(eleccion_id <= n);
            return Some((eleccion_id - 1) as usize);
        }
        None
    }

    /// Moves the election at position `i` to another stage.
    fn poner_estado_eleccion(&mut self, i: usize, estado: ESTADO_ELECCION)
        requires
            i < old(self)@.elecciones.len(),
        ensures
            final(self)@ == (TrabajoFinalVista {
                elecciones: old(self)@.elecciones.update(
                    i as int,
                    old(self)@.elecciones[i as int].con_estado(estado),
                ),
                ..old(self)@
            }),
    {
        self.elecciones[i].poner_estado(estado);
        assert(self@.elecciones =~= old(self)@.elecciones.update(
            i as int,
            old(self)@.elecciones[i as int].con_estado(estado),
        ));
    }

    /// The election at position `i`.
    fn eleccion_en(&self, i: usize) -> (r: &Eleccion)
        requires
            i < self@.elecciones.len(),
        ensures
            r@ == self@.elecciones[i as int],
    {
        &self.elecciones[i]
    }

    /// Creates an election between two instants given as UTC milliseconds; `None`
    /// stands for a date that could not be read.
    pub fn crear_eleccion_con_milisegundos(&mut self, caller: AccountId, fecha_inicial: Option<i64>, fecha_final: Option<i64>) -> (r: Result<String, String>)
        ensures
            (final(self)@, vista_respuesta(r)) == old(self)@.crear_eleccion(
                caller,
                fecha_inicial,
                fecha_final,
            ),
    {
        if !self.es_administrador(&caller) {
            return Err(ERRORES::NO_ES_ADMINISTRADOR.to_string());
        }
        let inicio = match fecha_inicial {
            Some(m) => m,
            None => return rechazo(mensajes::FECHA_INICIAL_INVALIDA),
        };
        let fin = match fecha_final {
            Some(m) => m,
            None => return rechazo(mensajes::FECHA_FINAL_INVALIDA),
        };
        let eleccion_id = match (self.elecciones.len() as u64).checked_add(1) {
            Some(id_validado) => id_validado,
            None => return rechazo(mensajes::OVERFLOW_ID_ELECCION),
        };
        let eleccion = Eleccion::nueva(eleccion_id, inicio as u64, fin as u64);
        self.elecciones.push(eleccion);
        assert(self@.elecciones =~= old(self)@.elecciones.push(
            eleccion_nueva(eleccion_id, inicio as u64, fin as u64),
        ));
        con_numero(mensajes::ELECCION_CREADA, eleccion_id)
    }

    /// The administrator creates an election between two dates written as
    /// `dd-mm-YYYY hh:mm` (UTC); it starts closed and is numbered after the last one.
    pub fn crear_eleccion(&mut self, caller: AccountId, fecha_inicial: String, fecha_final: String) -> (r: Result<String, String>)
        ensures
            (final(self)@, vista_respuesta(r)) == old(self)@.crear_eleccion(
                caller,
                milisegundos_de_fecha(fecha_inicial@, FORMATO_FECHA@),
                milisegundos_de_fecha(fecha_final@, FORMATO_FECHA@),
            ),
            old(self)@.es_administrador(caller) && old(self)@.elecciones.len() < u64::MAX
                && forma_de_fecha(fecha_inicial@) && forma_de_fecha(fecha_final@) ==> {
                &&& (r is Ok <==> fecha_valida(fecha_inicial@) && fecha_valida(fecha_final@))
                &&& r is Ok ==> {
                    &&& final(self)@.elecciones.len() == old(self)@.elecciones.len() + 1
                    &&& final(self)@.elecciones.last().fecha_inicio == instante_de(
                        fecha_inicial@,
                    ) as u64
                    &&& final(self)@.elecciones.last().fecha_final == instante_de(
                        fecha_final@,
                    ) as u64
                }
            },
    {
        let inicio = parsear_fecha(fecha_inicial.as_str(), FORMATO_FECHA);
        let fin = parsear_fecha(fecha_final.as_str(), FORMATO_FECHA);
        self.crear_eleccion_con_milisegundos(caller, inicio, fin)
    }

    /// The administrator closes an open election (the stage before the voting).
    pub fn cerrar_eleccion(&mut self, caller: AccountId, eleccion_id: u64, block_timestamp: u64) -> (r: Result<String, String>)
        ensures
            (final(self)@, vista_respuesta(r)) == old(self)@.cerrar_eleccion(
                caller,
                eleccion_id,
                block_timestamp,
            ),
    {
        if !self.es_administrador(&caller) {
            return Err(ERRORES::NO_ES_ADMINISTRADOR.to_string());
        }
        let i = match self.obtener_eleccion_por_id(eleccion_id) {
            Some(i) => i,
            None => return rechazo(mensajes::ELECCION_NO_EXISTE),
        };
        let eleccion = self.eleccion_en(i);
        if eleccion.fecha_inicio() < block_timestamp {
            return rechazo(mensajes::EN_FECHA_DE_VOTACION);
        }
        let id = eleccion.id();
        match eleccion.estado() {
            ESTADO_ELECCION::CERRADA => rechazo(mensajes::YA_EN_ESTADO_CERRADA),
            ESTADO_ELECCION::INICIADA => rechazo(mensajes::EN_ESTADO_DE_VOTACION),
            ESTADO_ELECCION::FINALIZADA => rechazo(mensajes::ELECCION_YA_CERRO),
            _ => {
                self.poner_estado_eleccion(i, ESTADO_ELECCION::CERRADA);
                con_numero(mensajes::ELECCION_CERRADA, id)
            },
        }
    }

    /// The administrator opens enrolment in a closed election.
    pub fn abrir_eleccion(&mut self, caller: AccountId, eleccion_id: u64, block_timestamp: u64) -> (r: Result<String, String>)
        ensures
            (final(self)@, vista_respuesta(r)) == old(self)@.abrir_eleccion(
                caller,
                eleccion_id,
                block_timestamp,
            ),
    {
        if !self.es_administrador(&caller) {
            return Err(ERRORES::NO_ES_ADMINISTRADOR.to_string());
        }
        let i = match self.obtener_eleccion_por_id(eleccion_id) {
            Some(i) => i,
            None => return rechazo(mensajes::ELECCION_NO_EXISTE),
        };
        let eleccion = self.eleccion_en(i);
        if eleccion.fecha_inicio() < block_timestamp {
            return rechazo(mensajes::EN_FECHA_DE_VOTACION);
        }
        let id = eleccion.id();
        match eleccion.estado() {
            ESTADO_ELECCION::ABIERTA => rechazo(mensajes::YA_EN_ESTADO),
            ESTADO_ELECCION::INICIADA => rechazo(mensajes::EN_ESTADO_DE_VOTACION),
            ESTADO_ELECCION::FINALIZADA => rechazo(mensajes::ELECCION_YA_CERRO),
            _ => {
                self.poner_estado_eleccion(i, ESTADO_ELECCION::ABIERTA);
                con_numero(mensajes::ELECCION_ABIERTA, id)
            },
        }
    }

    /// The administrator starts the voting of an election within its dates.
    pub fn iniciar_eleccion(&mut self, caller: AccountId, eleccion_id: u64, block_timestamp: u64) -> (r: Result<String, String>)
        ensures
            (final(self)@, vista_respuesta(r)) == old(self)@.iniciar_eleccion(
                caller,
                eleccion_id,
                block_timestamp,
            ),
    {
        if !self.es_administrador(&caller) {
            return Err(ERRORES::NO_ES_ADMINISTRADOR.to_string());
        }
        let i = match self.obtener_eleccion_por_id(eleccion_id) {
            Some(i) => i,
            None => return rechazo(mensajes::ELECCION_NO_EXISTE),
        };
        let eleccion = self.eleccion_en(i);
        if eleccion.fecha_inicio() > block_timestamp {
            return rechazo(mensajes::NO_ES_FECHA_DE_INICIO);
        }
        if eleccion.fecha_final() < block_timestamp {
            return rechazo(mensajes::YA_FINALIZO_NO_INICIA);
        }
        let id = eleccion.id();
        match eleccion.estado() {
            ESTADO_ELECCION::INICIADA => rechazo(mensajes::YA_EN_ESTADO),
            ESTADO_ELECCION::FINALIZADA => rechazo(mensajes::ELECCION_YA_CERRO),
            _ => {
                self.poner_estado_eleccion(i, ESTADO_ELECCION::INICIADA);
                con_numero(mensajes::ELECCION_INICIADA, id)
            },
        }
    }

    /// The administrator ends an election once its final date is reached.
    pub fn finalizar_eleccion(&mut self, caller: AccountId, eleccion_id: u64, block_timestamp: u64) -> (r: Result<String, String>)
        ensures
            (final(self)@, vista_respuesta(r)) == old(self)@.finalizar_eleccion(
                caller,
                eleccion_id,
                block_timestamp,
            ),
    {
        if !self.es_administrador(&caller) {
            return Err(ERRORES::NO_ES_ADMINISTRADOR.to_string());
        }
        let i = match self.obtener_eleccion_por_id(eleccion_id) {
            Some(i) => i,
            None => return rechazo(mensajes::ELECCION_NO_EXISTE),
        };
        let eleccion = self.eleccion_en(i);
        if eleccion.fecha_final() > block_timestamp {
            return rechazo(mensajes::NO_ES_FECHA_DE_FIN);
        }
        let id = eleccion.id();
        match eleccion.estado() {
            ESTADO_ELECCION::FINALIZADA => rechazo(mensajes::YA_EN_ESTADO_CERRADA),
            _ => {
                self.poner_estado_eleccion(i, ESTADO_ELECCION::FINALIZADA);
                con_numero(mensajes::ELECCION_FINALIZADA, id)
            },
        }
    }

    /// The numbers of the elections, in order.
    pub fn obtener_ids_elecciones(&self) -> (r: Vec<u64>)
        ensures
            r@ == self@.obtener_ids_elecciones(),
    {
        let mut r: Vec<u64> = Vec::new();
        let mut i: usize = 0;
        while i < self.elecciones.len()
            invariant
                0 <= i <= self@.elecciones.len(),
                r@ == self@.obtener_ids_elecciones().take(i as int),
            decreases self@.elecciones.len() - i,
        {
            r.push(self.eleccion_en(i).id());
            i = i + 1;
            assert(r@ =~= self@.obtener_ids_elecciones().take(i as int));
        }
        assert(self@.obtener_ids_elecciones().take(i as int) =~= self@.obtener_ids_elecciones());
        r
    }

    /// The report on an election: number, stage and dates.
    pub fn obtener_datos_eleccion_por_id(&mut self, eleccion_id: u64) -> (r: Result<String, String>)
        ensures
            final(self)@ == old(self)@,
            vista_respuesta(r) == old(self)@.obtener_datos_eleccion_por_id(eleccion_id),
    {
        let i = match self.obtener_eleccion_por_id(eleccion_id) {
            Some(i) => i,
            None => return rechazo(mensajes::ELECCION_NO_EXISTE),
        };
        let eleccion = self.eleccion_en(i);
        let mut s = String::from_str(mensajes::ETIQUETA_ID);
        s.append(texto_u64(eleccion.id()).as_str());
        match eleccion.estado() {
            ESTADO_ELECCION::CERRADA => s.append(mensajes::ESTADO_CERRADA),
            ESTADO_ELECCION::ABIERTA => s.append(mensajes::ESTADO_ABIERTA),
            ESTADO_ELECCION::INICIADA => s.append(mensajes::ESTADO_INICIADA),
            ESTADO_ELECCION::FINALIZADA => s.append(mensajes::ESTADO_FINALIZADA),
        }
        s.append(mensajes::ETIQUETA_FECHA_INICIO);
        s.append(texto_u64(eleccion.fecha_inicio()).as_str());
        s.append(mensajes::ETIQUETA_FECHA_FINAL);
        s.append(texto_u64(eleccion.fecha_final()).as_str());
        Ok(s)
    }

    /// The report on the candidates of an election and their votes.
    pub fn obtener_candidatos_eleccion_por_id(&mut self, eleccion_id: u64) -> (r: Result<String, String>)
        ensures
            final(self)@ == old(self)@,
            vista_respuesta(r) == old(self)@.obtener_candidatos_eleccion_por_id(eleccion_id),
    {
        let i = match self.obtener_eleccion_por_id(eleccion_id) {
            Some(i) => i,
            None => return rechazo(mensajes::ELECCION_NO_EXISTE),
        };
        let eleccion = self.eleccion_en(i);
        if eleccion.votacion_abierta() {
            return rechazo(mensajes::ELECCION_NO_FINALIZO);
        }
        let mut s = String::from_str(mensajes::ETIQUETA_ID);
        s.append(texto_u64(eleccion.id()).as_str());
        let candidatos = eleccion.candidatos();
        let ghost inicio = s@;
        let mut k: usize = 0;
        while k < candidatos.len()
            invariant
                0 <= k <= candidatos@.len(),
                s@ == inicio + informe_candidatos(candidatos@.take(k as int)),
            decreases candidatos@.len() - k,
        {
            let candidato = candidatos[k];
            s.append(mensajes::SEPARADOR);
            s.append(mensajes::ETIQUETA_ID_CANDIDATO);
            s.append(texto_u64(candidato.id).as_str());
            s.append(mensajes::ETIQUETA_ID_USUARIO);
            s.append(hex_de_cuenta(&candidato.usuario_id).as_str());
            s.append(mensajes::ETIQUETA_VOTOS_RECIBIDOS);
            s.append(texto_u64(candidato.votos_totales).as_str());
            assert(candidatos@.take(k + 1).drop_last() =~= candidatos@.take(k as int));
            k = k + 1;
        }
        assert(candidatos@.take(k as int) =~= candidatos@);
        Ok(s)
    }

    /// The report on the voters of an election and whether they voted.
    pub fn obtener_votantes_eleccion_por_id(&mut self, eleccion_id: u64) -> (r: Result<String, String>)
        ensures
            final(self)@ == old(self)@,
            vista_respuesta(r) == old(self)@.obtener_votantes_eleccion_por_id(eleccion_id),
    {
        let i = match self.obtener_eleccion_por_id(eleccion_id) {
            Some(i) => i,
            None => return rechazo(mensajes::ELECCION_NO_EXISTE),
        };
        let eleccion = self.eleccion_en(i);
        if eleccion.votacion_abierta() {
            return rechazo(mensajes::ELECCION_NO_FINALIZO);
        }
        let mut s = String::from_str(mensajes::ETIQUETA_ID);
        s.append(texto_u64(eleccion.id()).as_str());
        let votantes = eleccion.votantes();
        let ghost inicio = s@;
        let mut k: usize = 0;
        while k < votantes.len()
            invariant
                0 <= k <= votantes@.len(),
                s@ == inicio + informe_votantes(votantes@.take(k as int)),
            decreases votantes@.len() - k,
        {
            let votante = votantes[k];
            s.append(mensajes::SEPARADOR);
            s.append(mensajes::ETIQUETA_ID_USUARIO);
            s.append(hex_de_cuenta(&votante.usuario_id).as_str());
            s.append(mensajes::ETIQUETA_VOTO_EMITIDO);
            s.append(texto_bool(votante.voto_emitido).as_str());
            assert(votantes@.take(k + 1).drop_last() =~= votantes@.take(k as int));
            k = k + 1;
        }
        assert(votantes@.take(k as int) =~= votantes@);
        Ok(s)
    }

    /// The next request of the queue of an election, for the administrator.
    pub fn obtener_siguiente_usuario_pendiente_en_una_eleccion(&mut self, caller: AccountId, eleccion_id: u64) -> (r: Result<String, String>)
        ensures
            final(self)@ == old(self)@,
            vista_respuesta(r) == old(self)@.obtener_siguiente_usuario_pendiente_en_una_eleccion(
                caller,
                eleccion_id,
            ),
    {
        if !self.es_administrador(&caller) {
            return Err(ERRORES::NO_ES_ADMINISTRADOR.to_string());
        }
        let i = match self.obtener_eleccion_por_id(eleccion_id) {
            Some(i) => i,
            None => return rechazo(mensajes::ELECCION_NO_ENCONTRADA),
        };
        let pendientes = self.eleccion_en(i).usuarios_pendientes();
        if pendientes.len() == 0 {
            return rechazo(mensajes::NO_HAY_PENDIENTES);
        }
        let (usuario, tipo) = pendientes[0];
        let mut datos_usuario = String::from_str(mensajes::ETIQUETA_USUARIO);
        datos_usuario.append(hex_de_cuenta(&usuario).as_str());
        match tipo {
            TIPO_DE_USUARIO::VOTANTE => datos_usuario.append(mensajes::QUIERE_SER_VOTANTE),
            TIPO_DE_USUARIO::CANDIDATO => datos_usuario.append(mensajes::QUIERE_SER_CANDIDATO),
        }
        Ok(datos_usuario)
    }

    /// The administrator processes the next request of the queue of an election: the
    /// user joins it as voter or candidate, or is turned down in it.
    pub fn procesar_usuarios_en_una_eleccion(&mut self, caller: AccountId, eleccion_id: u64, aceptar_usuario: bool) -> (r: Result<String, String>)
        ensures
            (final(self)@, vista_respuesta(r)) == old(self)@.procesar_usuarios_en_una_eleccion(
                caller,
                eleccion_id,
                aceptar_usuario,
            ),
    {
        if !self.es_administrador(&caller) {
            return Err(ERRORES::NO_ES_ADMINISTRADOR.to_string());
        }
        let i = match self.obtener_eleccion_por_id(eleccion_id) {
            Some(i) => i,
            None => return rechazo(mensajes::ELECCION_NO_ENCONTRADA),
        };
        let r = self.elecciones[i].procesar_siguiente_usuario_pendiente(aceptar_usuario);
        proof {
            let (e, _) = old(self)@.elecciones[i as int].procesar_siguiente_usuario_pendiente(
                aceptar_usuario,
            );
            assert(self@.elecciones =~= old(self)@.elecciones.update(i as int, e));
        }
        r
    }

    /// Checks that the election numbered `eleccion_id` takes requests, moving it on to the
    /// stage that its dates call for where they have come.
    fn validar_estado_eleccion_para_inscripciones(&mut self, eleccion_id: u64, block_timestamp: u64) -> (r: Result<usize, String>)
        ensures
            ({
                let (s, v) = old(self)@.validar_estado_eleccion_para_inscripciones(
                    eleccion_id,
                    block_timestamp,
                );
                &&& final(self)@ == s
                &&& match r {
                    Ok(i) => v is Ok && i == eleccion_id - 1 && i < s.elecciones.len(),
                    Err(m) => v == Err::<(), Seq<char>>(m@),
                }
            }),
    {
        let i = match self.obtener_eleccion_por_id(eleccion_id) {
            Some(i) => i,
            None => return rechazo_en(mensajes::NO_EXISTE_ELECCION_CON_ID),
        };
        let eleccion = self.eleccion_en(i);
        if !eleccion.inscripcion_abierta() {
            return rechazo_en(mensajes::INSCRIPCION_NO_ABIERTA);
        }
        if eleccion.fecha_final() < block_timestamp {
            if !eleccion.esta_finalizada() {
                self.poner_estado_eleccion(i, ESTADO_ELECCION::FINALIZADA);
            }
            return rechazo_en(mensajes::FINALIZO_NO_INSCRIBE);
        }
        if eleccion.fecha_inicio() < block_timestamp {
            if !eleccion.votacion_abierta() {
                self.poner_estado_eleccion(i, ESTADO_ELECCION::INICIADA);
            }
            return rechazo_en(mensajes::COMENZO_NO_INSCRIBE);
        }
        Ok(i)
    }

    /// Checks that the dates of the election numbered `eleccion_id` allow a vote, moving
    /// it on to the stage that its dates call for (a finished election keeps its stage).
    fn validar_estado_eleccion_para_votaciones(&mut self, eleccion_id: u64, block_timestamp: u64) -> (r: Result<usize, String>)
        ensures
            ({
                let (s, v) = old(self)@.validar_estado_eleccion_para_votaciones(
                    eleccion_id,
                    block_timestamp,
                );
                &&& final(self)@ == s
                &&& match r {
                    Ok(i) => v is Ok && i == eleccion_id - 1 && i < s.elecciones.len(),
                    Err(m) => v == Err::<(), Seq<char>>(m@),
                }
            }),
    {
        let i = match self.obtener_eleccion_por_id(eleccion_id) {
            Some(i) => i,
            None => return rechazo_en(mensajes::NO_EXISTE_ELECCION_CON_ID),
        };
        let eleccion = self.eleccion_en(i);
        let ghost e = old(self)@.elecciones[i as int];
        if eleccion.fecha_final() < block_timestamp {
            if !eleccion.esta_finalizada() {
                self.poner_estado_eleccion(i, ESTADO_ELECCION::FINALIZADA);
            } else {
                assert(e.con_estado(ESTADO_ELECCION::FINALIZADA) == e);
                assert(old(self)@.elecciones.update(i as int, e) =~= old(self)@.elecciones);
            }
            return rechazo_en(mensajes::FINALIZO_NO_VOTA);
        }
        if eleccion.fecha_inicio() > block_timestamp {
            return rechazo_en(mensajes::NO_INICIO_NO_VOTA);
        }
        if eleccion.fecha_inicio() < block_timestamp && !eleccion.esta_finalizada() {
            if !eleccion.votacion_abierta() {
                self.poner_estado_eleccion(i, ESTADO_ELECCION::INICIADA);
            } else {
                assert(e.con_estado(ESTADO_ELECCION::INICIADA) == e);
                assert(old(self)@.elecciones.update(i as int, e) =~= old(self)@.elecciones);
            }
        }
        Ok(i)
    }

    /// A registered user asks to take part in an election, as voter or candidate; the
    /// request waits for the administrator.
    pub fn inscribir_usuario_en_eleccion(&mut self, caller: AccountId, eleccion_id: u64, tipo: TIPO_DE_USUARIO, block_timestamp: u64) -> (r: Result<String, String>)
        ensures
            (final(self)@, vista_respuesta(r)) == old(self)@.inscribir_usuario_en_eleccion(
                caller,
                eleccion_id,
                tipo,
                block_timestamp,
            ),
    {
        if !self.es_usuario_registrado(&caller) {
            return Err(ERRORES::USUARIO_NO_REGISTRADO.to_string());
        }
        let i = match self.validar_estado_eleccion_para_inscripciones(eleccion_id, block_timestamp) {
            Ok(i) => i,
            Err(mensaje) => return Err(mensaje),
        };
        let eleccion = self.eleccion_en(i);
        if eleccion.es_usuario_rechazado(&caller) {
            return rechazo(mensajes::SOLICITUD_YA_RECHAZADA);
        }
        if eleccion.es_usuario_pendiente(&caller) {
            return rechazo(mensajes::YA_PENDIENTE);
        }
        if eleccion.es_votante(&caller) {
            return rechazo(mensajes::YA_ES_VOTANTE);
        }
        if eleccion.es_candidato(&caller) {
            return rechazo(mensajes::YA_ES_CANDIDATO);
        }
        let ghost antes = self@;
        self.elecciones[i].agregar_pendiente(caller, tipo);
        proof {
            let e = antes.elecciones[i as int];
            assert(self@.elecciones =~= antes.elecciones.update(
                i as int,
                EleccionVista { usuarios_pendientes: e.usuarios_pendientes.push((caller, tipo)), ..e },
            ));
        }
        exito(mensajes::INSCRIPCION_PENDIENTE)
    }

    /// Name and surname of the registered user behind a candidate of an election,
    /// answered only to an accepted user who takes part in that election as voter or
    /// candidate. Candidates are numbered from 1.
    pub fn obtener_informacion_candidato(&mut self, caller: AccountId, eleccion_id: u64, candidato_id: u64) -> (r: Result<String, String>)
        ensures
            final(self)@ == old(self)@,
            vista_respuesta(r) == old(self)@.obtener_informacion_candidato(
                caller,
                eleccion_id,
                candidato_id,
            ),
    {
        let i = match self.obtener_eleccion_por_id(eleccion_id) {
            Some(i) => i,
            None => return rechazo(mensajes::NO_EXISTE_ELECCION_CON_ID),
        };
        let eleccion = self.eleccion_en(i);
        let candidato = match eleccion.obtener_informacion_candidato(candidato_id) {
            Some(c) => c,
            None => return rechazo(mensajes::NO_EXISTE_CANDIDATO_CON_ESE_ID),
        };
        let usuario_id = candidato.usuario_id;
        let k = match posicion_usuario(&self.usuarios, &usuario_id) {
            Some(k) => k,
            None => return rechazo(mensajes::NO_EXISTE_USUARIO_CANDIDATO),
        };
        if !self.es_usuario_registrado(&caller) {
            return Err(ERRORES::USUARIO_NO_REGISTRADO.to_string());
        }
        if !eleccion.es_votante(&caller) && !eleccion.es_candidato(&caller) {
            return rechazo(mensajes::NO_REGISTRADO_EN_ELECCION);
        }
        proof {
            lema_primer_usuario(self@.usuarios, usuario_id, k as int);
        }
        let usuario = &self.usuarios[k];
        let mut informacion = String::from_str(mensajes::ETIQUETA_NOMBRE);
        informacion.append(usuario.nombre());
        informacion.append(mensajes::ETIQUETA_APELLIDO);
        informacion.append(usuario.apellido());
        Ok(informacion)
    }

    /// A registered voter of an election votes for one of its candidates, once; a vote
    /// in a finished election is refused.
    pub fn votar_a_candidato(&mut self, caller: AccountId, eleccion_id: u64, candidato_id: u64, block_timestamp: u64) -> (r: Result<String, String>)
        ensures
            (final(self)@, vista_respuesta(r)) == old(self)@.votar_a_candidato(
                caller,
                eleccion_id,
                candidato_id,
                block_timestamp,
            ),
    {
        if !self.es_usuario_registrado(&caller) {
            return Err(ERRORES::USUARIO_NO_REGISTRADO.to_string());
        }
        let i = match self.validar_estado_eleccion_para_votaciones(eleccion_id, block_timestamp) {
            Ok(i) => i,
            Err(mensaje) => return Err(mensaje),
        };
        let eleccion = self.eleccion_en(i);
        if eleccion.es_usuario_rechazado(&caller) {
            return rechazo(mensajes::SOLICITUD_RECHAZADA);
        }
        if eleccion.es_usuario_pendiente(&caller) {
            return rechazo(mensajes::EN_COLA_DE_PENDIENTES);
        }
        if !eleccion.es_votante(&caller) {
            return rechazo(mensajes::NO_ES_VOTANTE);
        }
        if eleccion.es_candidato(&caller) {
            return rechazo(mensajes::ES_CANDIDATO);
        }
        if let Err(mensaje) = eleccion.verificar_voto(&caller, candidato_id) {
            assert(self@.elecciones.update(i as int, self@.elecciones[i as int])
                =~= self@.elecciones);
            return Err(mensaje);
        }
        if eleccion.esta_finalizada() {
            return rechazo(mensajes::FINALIZO_NO_VOTA);
        }
        let ghost antes = self@;
        let r = self.elecciones[i].votar_candidato(caller, candidato_id);
        proof {
            let (e, _) = antes.elecciones[i as int].votar_candidato(caller, candidato_id);
            assert(self@.elecciones =~= antes.elecciones.update(i as int, e));
        }
        r
    }

    /// The administrator hands the role over to `id`.
    pub fn transferir_administrador(&mut self, caller: AccountId, id: AccountId) -> (r: Result<String, String>)
        ensures
            (final(self)@, vista_respuesta(r)) == old(self)@.transferir_administrador(caller, id),
    {
        if !self.es_administrador(&caller) {
            return Err(ERRORES::NO_ES_ADMINISTRADOR.to_string());
        }
        self.administrador = id;
        exito(mensajes::ADMINISTRADOR_TRANSFERIDO)
    }
}

} // verus!
