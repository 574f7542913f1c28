//! An election: its candidates and their counts, its voters, the queue of users
//! asking to take part and the users it turned down.
use vstd::prelude::*;

use crate::cuenta::AccountId;
use crate::mensajes;
use crate::texto::{exito, rechazo, vista_respuesta, Respuesta};

verus! {

/// The stages of an election.
#[allow(non_camel_case_types)]
#[derive(Clone, Copy, Debug, PartialEq, Eq, Structural)]
pub enum ESTADO_ELECCION {
    CERRADA,
    ABIERTA,
    INICIADA,
    FINALIZADA,
}

/// The role a user asks for in an election.
#[allow(non_camel_case_types)]
#[derive(Clone, Copy, Debug, PartialEq, Eq, Structural)]
pub enum TIPO_DE_USUARIO {
    VOTANTE,
    CANDIDATO,
}

/// A voter of an election, and whether the vote was cast.
#[derive(Clone, Copy, Debug)]
pub struct Votante {
    pub usuario_id: AccountId,
    pub voto_emitido: bool,
}

/// A candidate of an election, with its number (from 1) and the votes it received.
#[derive(Clone, Copy, Debug)]
pub struct CandidatoConteo {
    pub id: u64,
    pub usuario_id: AccountId,
    pub votos_totales: u64,
}

/// An election of the registry.
#[derive(Debug)]
pub struct Eleccion {
    id: u64,
    candidatos: Vec<CandidatoConteo>,
    votantes: Vec<Votante>,
    usuarios_rechazados: Vec<AccountId>,
    usuarios_pendientes: Vec<(AccountId, TIPO_DE_USUARIO)>,
    estado: ESTADO_ELECCION,
    fecha_inicio: u64,
    fecha_final: u64,
}

/// The abstract value of an election.
pub struct EleccionVista {
    pub id: u64,
    pub candidatos: Seq<CandidatoConteo>,
    pub votantes: Seq<Votante>,
    pub usuarios_rechazados: Seq<AccountId>,
    pub usuarios_pendientes: Seq<(AccountId, TIPO_DE_USUARIO)>,
    pub estado: ESTADO_ELECCION,
    pub fecha_inicio: u64,
    pub fecha_final: u64,
}

impl View for Eleccion {
    type V = EleccionVista;

    closed spec fn view(&self) -> EleccionVista {
        EleccionVista {
            id: self.id,
            candidatos: self.candidatos@,
            votantes: self.votantes@,
            usuarios_rechazados: self.usuarios_rechazados@,
            usuarios_pendientes: self.usuarios_pendientes@,
            estado: self.estado,
            fecha_inicio: self.fecha_inicio,
            fecha_final: self.fecha_final,
        }
    }
}

/// `i` is the first position of `votantes` that holds the account `id`.
pub open spec fn es_primer_votante(votantes: Seq<Votante>, id: AccountId, i: int) -> bool {
    &&& 0 <= i < votantes.len()
    &&& votantes[i].usuario_id == id
    &&& forall|j: int| 0 <= j < i ==> votantes[j].usuario_id != id
}

/// The first position of `votantes` that holds the account `id`.
pub open spec fn primer_votante(votantes: Seq<Votante>, id: AccountId) -> int {
    choose|i: int| es_primer_votante(votantes, id, i)
}

/// The first position holding an account is unique, so `primer_votante` names it.
pub proof fn lema_primer_votante(votantes: Seq<Votante>, id: AccountId, i: int)
    requires
        es_primer_votante(votantes, id, i),
    ensures
        primer_votante(votantes, id) == i,
{
    let c = primer_votante(votantes, id);
    assert(es_primer_votante(votantes, id, c));
    if c < i {
        assert(votantes[c].usuario_id != id);
    } else if c > i {
        assert(votantes[i].usuario_id != id);
    }
}

/// A voter entry of `votantes` holds the account `id`, and the first one is found.
pub proof fn lema_existe_primer_votante(votantes: Seq<Votante>, id: AccountId, k: int)
    requires
        0 <= k < votantes.len(),
        votantes[k].usuario_id == id,
    ensures
        es_primer_votante(votantes, id, primer_votante(votantes, id)),
    decreases k,
{
    if exists|j: int| 0 <= j < k && votantes[j].usuario_id == id {
        let j = choose|j: int| 0 <= j < k && votantes[j].usuario_id == id;
        lema_existe_primer_votante(votantes, id, j);
    } else {
        assert(es_primer_votante(votantes, id, k));
    }
}

impl EleccionVista {
    /// The account is one of the voters.
    pub open spec fn es_votante(self, id: AccountId) -> bool {
        exists|i: int| 0 <= i < self.votantes.len() && self.votantes[i].usuario_id == id
    }

    /// The account is one of the candidates.
    pub open spec fn es_candidato(self, id: AccountId) -> bool {
        exists|i: int| 0 <= i < self.candidatos.len() && self.candidatos[i].usuario_id == id
    }

    /// The account waits in the queue of the election.
    pub open spec fn es_usuario_pendiente(self, id: AccountId) -> bool {
        exists|i: int|
            0 <= i < self.usuarios_pendientes.len() && self.usuarios_pendientes[i].0 == id
    }

    /// The election turned the account down.
    pub open spec fn es_usuario_rechazado(self, id: AccountId) -> bool {
        exists|i: int|
            0 <= i < self.usuarios_rechazados.len() && self.usuarios_rechazados[i] == id
    }

    /// Candidates are numbered from 1 to their count.
    pub open spec fn existe_candidato(self, candidato_id: u64) -> bool {
        1 <= candidato_id <= self.candidatos.len()
    }

    /// The same election in another stage.
    pub open spec fn con_estado(self, estado: ESTADO_ELECCION) -> EleccionVista {
        EleccionVista { estado: estado, ..self }
    }

    /// What a vote of `votante_id` for candidate `candidato_id` leaves and answers.
    pub open spec fn votar_candidato(self, votante_id: AccountId, candidato_id: u64) -> (
        EleccionVista,
        Respuesta,
    ) {
        if !self.existe_candidato(candidato_id) {
            (self, Err(mensajes::NO_EXISTE_CANDIDATO_CON_ESTE_ID@))
        } else if !self.es_votante(votante_id) {
            (self, Err(mensajes::NO_REGISTRADO_EN_ELECCION@))
        } else {
            let i = primer_votante(self.votantes, votante_id);
            let c = candidato_id - 1;
            let candidato = self.candidatos[c];
            if self.votantes[i].voto_emitido {
                (self, Err(mensajes::YA_VOTASTE@))
            } else if candidato.votos_totales == u64::MAX {
                (self, Err(mensajes::OVERFLOW_VOTO@))
            } else {
                (
                    EleccionVista {
                        votantes: self.votantes.update(
                            i,
                            Votante { usuario_id: votante_id, voto_emitido: true },
                        ),
                        candidatos: self.candidatos.update(
                            c,
                            CandidatoConteo {
                                votos_totales: (candidato.votos_totales + 1) as u64,
                                ..candidato
                            },
                        ),
                        ..self
                    },
                    Ok(mensajes::VOTO_EMITIDO@),
                )
            }
        }
    }

    /// What processing the head of the queue leaves and answers: accepted users join
    /// as voters, or as candidates numbered after the last one; refused users are
    /// recorded as turned down.
    pub open spec fn procesar_siguiente_usuario_pendiente(self, aceptar_usuario: bool) -> (
        EleccionVista,
        Respuesta,
    ) {
        if self.usuarios_pendientes.len() == 0 {
            (self, Err(mensajes::NO_HAY_PENDIENTES@))
        } else {
            let (usuario, tipo) = self.usuarios_pendientes[0];
            let resto = EleccionVista {
                usuarios_pendientes: self.usuarios_pendientes.drop_first(),
                ..self
            };
            if aceptar_usuario {
                match tipo {
                    TIPO_DE_USUARIO::VOTANTE => (
                        EleccionVista {
                            votantes: self.votantes.push(
                                Votante { usuario_id: usuario, voto_emitido: false },
                            ),
                            ..resto
                        },
                        Ok(mensajes::USUARIO_AGREGADO@),
                    ),
                    TIPO_DE_USUARIO::CANDIDATO => if self.candidatos.len() >= u64::MAX {
                        (resto, Err(mensajes::OVERFLOW_ID_CANDIDATO@))
                    } else {
                        (
                            EleccionVista {
                                candidatos: self.candidatos.push(
                                    CandidatoConteo {
                                        id: (self.candidatos.len() + 1) as u64,
                                        usuario_id: usuario,
                                        votos_totales: 0,
                                    },
                                ),
                                ..resto
                            },
                            Ok(mensajes::USUARIO_AGREGADO@),
                        )
                    },
                }
            } else {
                (
                    EleccionVista {
                        usuarios_rechazados: self.usuarios_rechazados.push(usuario),
                        ..resto
                    },
                    Ok(mensajes::USUARIO_RECHAZADO@),
                )
            }
        }
    }
}

impl Eleccion {
    /// A new election, closed, with no candidates, voters or requests.
    pub fn nueva(id: u64, fecha_inicio: u64, fecha_final: u64) -> (r: Eleccion)
        ensures
            r@ == (EleccionVista {
                id: id,
                candidatos: Seq::empty(),
                votantes: Seq::empty(),
                usuarios_rechazados: Seq::empty(),
                usuarios_pendientes: Seq::empty(),
                estado: ESTADO_ELECCION::CERRADA,
                fecha_inicio: fecha_inicio,
                fecha_final: fecha_final,
            }),
    {
        Eleccion {
            id,
            candidatos: Vec::new(),
            votantes: Vec::new(),
            usuarios_rechazados: Vec::new(),
            usuarios_pendientes: Vec::new(),
            estado: ESTADO_ELECCION::CERRADA,
            fecha_inicio,
            fecha_final,
        }
    }

    /// An election holding exactly the given parts, as stored by the runtime.
    pub fn desde_partes(
        id: u64,
        candidatos: Vec<CandidatoConteo>,
        votantes: Vec<Votante>,
        usuarios_rechazados: Vec<AccountId>,
        usuarios_pendientes: Vec<(AccountId, TIPO_DE_USUARIO)>,
        estado: ESTADO_ELECCION,
        fecha_inicio: u64,
        fecha_final: u64,
    ) -> (r: Eleccion)
        ensures
            r@ == (EleccionVista {
                id: id,
                candidatos: candidatos@,
                votantes: votantes@,
                usuarios_rechazados: usuarios_rechazados@,
                usuarios_pendientes: usuarios_pendientes@,
                estado: estado,
                fecha_inicio: fecha_inicio,
                fecha_final: fecha_final,
            }),
    {
        Eleccion {
            id,
            candidatos,
            votantes,
            usuarios_rechazados,
            usuarios_pendientes,
            estado,
            fecha_inicio,
            fecha_final,
        }
    }

    pub fn id(&self) -> (r: u64)
        ensures
            r == self@.id,
    {
        self.id
    }

    pub fn estado(&self) -> (r: ESTADO_ELECCION)
        ensures
            r == self@.estado,
    {
        self.estado
    }

    pub fn fecha_inicio(&self) -> (r: u64)
        ensures
            r == self@.fecha_inicio,
    {
        self.fecha_inicio
    }

    pub fn fecha_final(&self) -> (r: u64)
        ensures
            r == self@.fecha_final,
    {
        self.fecha_final
    }

    pub fn candidatos(&self) -> (r: &Vec<CandidatoConteo>)
        ensures
            r@ == self@.candidatos,
    {
        &self.candidatos
    }

    pub fn votantes(&self) -> (r: &Vec<Votante>)
        ensures
            r@ == self@.votantes,
    {
        &self.votantes
    }

    pub fn usuarios_pendientes(&self) -> (r: &Vec<(AccountId, TIPO_DE_USUARIO)>)
        ensures
            r@ == self@.usuarios_pendientes,
    {
        &self.usuarios_pendientes
    }

    pub fn usuarios_rechazados(&self) -> (r: &Vec<AccountId>)
        ensures
            r@ == self@.usuarios_rechazados,
    {
        &self.usuarios_rechazados
    }

    /// Moves the election to another stage.
    pub fn poner_estado(&mut self, estado: ESTADO_ELECCION)
        ensures
            final(self)@ == old(self)@.con_estado(estado),
    {
        self.estado = estado;
    }

    /// Appends a request to the queue of the election.
    pub fn agregar_pendiente(&mut self, id: AccountId, tipo: TIPO_DE_USUARIO)
        ensures
            final(self)@ == (EleccionVista {
                usuarios_pendientes: old(self)@.usuarios_pendientes.push((id, tipo)),
                ..old(self)@
            }),
    {
        self.usuarios_pendientes.push((id, tipo));
    }

    /// Enrolment is open.
    pub fn inscripcion_abierta(&self) -> (r: bool)
        ensures
            r == (self@.estado == ESTADO_ELECCION::ABIERTA),
    {
        match self.estado {
            ESTADO_ELECCION::ABIERTA => true,
            _ => false,
        }
    }

    /// Voting is under way.
    pub fn votacion_abierta(&self) -> (r: bool)
        ensures
            r == (self@.estado == ESTADO_ELECCION::INICIADA),
    {
        match self.estado {
            ESTADO_ELECCION::INICIADA => true,
            _ => false,
        }
    }

    /// The election is closed.
    pub fn esta_cerrada(&self) -> (r: bool)
        ensures
            r == (self@.estado == ESTADO_ELECCION::CERRADA),
    {
        match self.estado {
            ESTADO_ELECCION::CERRADA => true,
            _ => false,
        }
    }

    /// The election is over.
    pub fn esta_finalizada(&self) -> (r: bool)
        ensures
            r == (self@.estado == ESTADO_ELECCION::FINALIZADA),
    {
        match self.estado {
            ESTADO_ELECCION::FINALIZADA => true,
            _ => false,
        }
    }

    /// The position of the first voter entry of `id`.
    fn posicion_votante(&self, id: &AccountId) -> (r: Option<usize>)
        ensures
            match r {
                Some(i) => es_primer_votante(self@.votantes, *id, i as int),
                None => !self@.es_votante(*id),
            },
    {
        let mut i: usize = 0;
        while i < self.votantes.len()
            invariant
                0 <= i <= self.votantes@.len(),
                forall|j: int| 0 <= j < i ==> self.votantes@[j].usuario_id != *id,
            decreases self.votantes@.len() - i,
        {
            if self.votantes[i].usuario_id == *id {
                return Some(i);
            }
            i = i + 1;
        }
        None
    }

    pub fn es_votante(&self, id: &AccountId) -> (r: bool)
        ensures
            r == self@.es_votante(*id),
    {
        self.posicion_votante(id).is_some()
    }

    pub fn es_candidato(&self, id: &AccountId) -> (r: bool)
        ensures
            r == self@.es_candidato(*id),
    {
        let mut i: usize = 0;
        while i < self.candidatos.len()
            invariant
                0 <= i <= self.candidatos@.len(),
                forall|j: int| 0 <= j < i ==> self.candidatos@[j].usuario_id != *id,
            decreases self.candidatos@.len() - i,
        {
            if self.candidatos[i].usuario_id == *id {
                proof {
                    assert(self@.candidatos[i as int].usuario_id == *id);
                }
                return true;
            }
            i = i + 1;
        }
        false
    }

    pub fn es_usuario_pendiente(&self, id: &AccountId) -> (r: bool)
        ensures
            r == self@.es_usuario_pendiente(*id),
    {
        let mut i: usize = 0;
        while i < self.usuarios_pendientes.len()
            invariant
                0 <= i <= self.usuarios_pendientes@.len(),
                forall|j: int| 0 <= j < i ==> self.usuarios_pendientes@[j].0 != *id,
            decreases self.usuarios_pendientes@.len() - i,
        {
            if self.usuarios_pendientes[i].0 == *id {
                proof {
                    assert(self@.usuarios_pendientes[i as int].0 == *id);
                }
                return true;
            }
            i = i + 1;
        }
        false
    }

    pub fn es_usuario_rechazado(&self, id: &AccountId) -> (r: bool)
        ensures
            r == self@.es_usuario_rechazado(*id),
    {
        let mut i: usize = 0;
        while i < self.usuarios_rechazados.len()
            invariant
                0 <= i <= self.usuarios_rechazados@.len(),
                forall|j: int| 0 <= j < i ==> self.usuarios_rechazados@[j] != *id,
            decreases self.usuarios_rechazados@.len() - i,
        {
            if self.usuarios_rechazados[i] == *id {
                proof {
                    assert(self@.usuarios_rechazados[i as int] == *id);
                }
                return true;
            }
            i = i + 1;
        }
        false
    }

    pub fn existe_candidato(&self, candidato_id: u64) -> (r: bool)
        ensures
            r == self@.existe_candidato(candidato_id),
    {
        candidato_id >= 1 && candidato_id <= self.candidatos.len() as u64
    }

    /// The candidate numbered `candidato_id`, if there is one.
    pub fn obtener_informacion_candidato(&self, candidato_id: u64) -> (r: Option<
        &CandidatoConteo,
    >)
        ensures
            match r {
                Some(c) => self@.existe_candidato(candidato_id) && *c
                    == self@.candidatos[candidato_id - 1],
                None => !self@.existe_candidato(candidato_id),
            },
    {
        if !self.existe_candidato(candidato_id) {
            return None;
        }
        let n = self.candidatos.len();
        assert(candidato_id <= n);
        Some(&self.candidatos[(candidato_id - 1) as usize])
    }

    /// Checks a vote of `votante_id` for candidate `candidato_id` without casting it:
    /// the refusal that a vote would give, or the positions of the voter entry and of
    /// the candidate that it would change.
    pub fn verificar_voto(&self, votante_id: &AccountId, candidato_id: u64) -> (r: Result<
        (usize, usize),
        String,
    >)
        ensures
            match r {
                Ok((i, c)) => {
                    &&& self@.votar_candidato(*votante_id, candidato_id).1 is Ok
                    &&& es_primer_votante(self@.votantes, *votante_id, i as int)
                    &&& i == primer_votante(self@.votantes, *votante_id)
                    &&& c == candidato_id - 1
                    &&& c < self@.candidatos.len()
                },
                Err(m) => self@.votar_candidato(*votante_id, candidato_id).1 == Err::<
                    Seq<char>,
                    Seq<char>,
                >(m@),
            },
    {
        if !self.existe_candidato(candidato_id) {
            return Err(String::from_str(mensajes::NO_EXISTE_CANDIDATO_CON_ESTE_ID));
        }
        let i = match self.posicion_votante(votante_id) {
            Some(i) => i,
            None => return Err(String::from_str(mensajes::NO_REGISTRADO_EN_ELECCION)),
        };
        proof {
            lema_primer_votante(self@.votantes, *votante_id, i as int);
        }
        if self.votantes[i].voto_emitido {
            return Err(String::from_str(mensajes::YA_VOTASTE));
        }
        let n = self.candidatos.len();
        assert(candidato_id <= n);
        let c = (candidato_id - 1) as usize;
        if self.candidatos[c].votos_totales == u64::MAX {
            return Err(String::from_str(mensajes::OVERFLOW_VOTO));
        }
        Ok((i, c))
    }

    /// Casts the vote of `votante_id` for the candidate numbered `candidato_id`.
    pub fn votar_candidato(&mut self, votante_id: AccountId, candidato_id: u64) -> (r: Result<
        String,
        String,
    >)
        ensures
            (final(self)@, vista_respuesta(r)) == old(self)@.votar_candidato(
                votante_id,
                candidato_id,
            ),
    {
        let (i, c) = match self.verificar_voto(&votante_id, candidato_id) {
            Ok(posiciones) => posiciones,
            Err(mensaje) => return Err(mensaje),
        };
        let candidato = self.candidatos[c];
        self.votantes.set(i, Votante { usuario_id: votante_id, voto_emitido: true });
        self.candidatos.set(
            c,
            CandidatoConteo { votos_totales: candidato.votos_totales + 1, ..candidato },
        );
        exito(mensajes::VOTO_EMITIDO)
    }

    /// Processes the head of the queue of requests.
    pub fn procesar_siguiente_usuario_pendiente(&mut self, aceptar_usuario: bool) -> (r: Result<
        String,
        String,
    >)
        ensures
            (final(self)@, vista_respuesta(r))
                == old(self)@.procesar_siguiente_usuario_pendiente(aceptar_usuario),
    {
        if self.usuarios_pendientes.len() == 0 {
            return rechazo(mensajes::NO_HAY_PENDIENTES);
        }
        let (usuario, tipo) = self.usuarios_pendientes.remove(0);
        if aceptar_usuario {
            match tipo {
                TIPO_DE_USUARIO::VOTANTE => {
                    self.votantes.push(Votante { usuario_id: usuario, voto_emitido: false });
                },
                TIPO_DE_USUARIO::CANDIDATO => {
                    let candidato_id = match (self.candidatos.len() as u64).checked_add(1) {
                        Some(id_validado) => id_validado,
                        None => return rechazo(mensajes::OVERFLOW_ID_CANDIDATO),
                    };
                    self.candidatos.push(
                        CandidatoConteo { id: candidato_id, usuario_id: usuario, votos_totales: 0 },
                    );
                },
            }
            exito(mensajes::USUARIO_AGREGADO)
        } else {
            self.usuarios_rechazados.push(usuario);
            exito(mensajes::USUARIO_RECHAZADO)
        }
    }
}

} // verus!
