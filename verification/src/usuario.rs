//! Users of the registry and their lookup by account.
use vstd::prelude::*;

use crate::cuenta::AccountId;
use crate::mensajes;

verus! {

/// A person who asked to use the registry.
#[derive(Debug)]
pub struct Usuario {
    id: AccountId,
    nombre: String,
    apellido: String,
    dni: String,
}

/// The abstract value of a user.
pub struct UsuarioVista {
    pub id: AccountId,
    pub nombre: Seq<char>,
    pub apellido: Seq<char>,
    pub dni: Seq<char>,
}

impl View for Usuario {
    type V = UsuarioVista;

    closed spec fn view(&self) -> UsuarioVista {
        UsuarioVista { id: self.id, nombre: self.nombre@, apellido: self.apellido@, dni: self.dni@ }
    }
}

/// The users of a list, taken by their views.
pub open spec fn vistas(lista: Seq<Usuario>) -> Seq<UsuarioVista> {
    lista.map_values(|u: Usuario| u@)
}

/// Some user of the list holds the account `id`.
pub open spec fn contiene_usuario(lista: Seq<UsuarioVista>, id: AccountId) -> bool {
    exists|i: int| 0 <= i < lista.len() && lista[i].id == id
}

/// `i` is the first position of the list that holds the account `id`.
pub open spec fn es_primer_usuario(lista: Seq<UsuarioVista>, id: AccountId, i: int) -> bool {
    &&& 0 <= i < lista.len()
    &&& lista[i].id == id
    &&& forall|j: int| 0 <= j < i ==> lista[j].id != id
}

/// The first user of the list that holds the account `id`.
pub open spec fn primer_usuario(lista: Seq<UsuarioVista>, id: AccountId) -> UsuarioVista {
    lista[choose|i: int| es_primer_usuario(lista, id, i)]
}

/// The accounts of a list of users, in order.
pub open spec fn ids_de(lista: Seq<UsuarioVista>) -> Seq<AccountId> {
    lista.map_values(|u: UsuarioVista| u.id)
}

/// The report on a user: name, surname and national identity number.
pub open spec fn ficha(u: UsuarioVista) -> Seq<char> {
    mensajes::ETIQUETA_NOMBRE@ + u.nombre + mensajes::ETIQUETA_APELLIDO@ + u.apellido
        + mensajes::ETIQUETA_DNI@ + u.dni
}

/// The first position holding an account is unique.
pub proof fn lema_primer_usuario(lista: Seq<UsuarioVista>, id: AccountId, i: int)
    requires
        es_primer_usuario(lista, id, i),
    ensures
        primer_usuario(lista, id) == lista[i],
{
    let c = choose|c: int| es_primer_usuario(lista, id, c);
    assert(es_primer_usuario(lista, id, c));
    if c < i {
        assert(lista[c].id != id);
    } else if c > i {
        assert(lista[i].id != id);
    }
}

impl Usuario {
    pub fn nuevo(id: AccountId, nombre: String, apellido: String, dni: String) -> (r: Usuario)
        ensures
            r@ == (UsuarioVista { id: id, nombre: nombre@, apellido: apellido@, dni: dni@ }),
    {
        Usuario { id, nombre, apellido, dni }
    }

    pub fn id(&self) -> (r: AccountId)
        ensures
            r == self@.id,
    {
        self.id
    }

    pub fn nombre(&self) -> (r: &str)
        ensures
            r@ == self@.nombre,
    {
        self.nombre.as_str()
    }

    pub fn apellido(&self) -> (r: &str)
        ensures
            r@ == self@.apellido,
    {
        self.apellido.as_str()
    }

    pub fn dni(&self) -> (r: &str)
        ensures
            r@ == self@.dni,
    {
        self.dni.as_str()
    }

    /// The report on this user (see `ficha`).
    pub fn ficha(&self) -> (r: String)
        ensures
            r@ == ficha(self@),
    {
        let mut s = String::from_str(mensajes::ETIQUETA_NOMBRE);
        s.append(self.nombre.as_str());
        s.append(mensajes::ETIQUETA_APELLIDO);
        s.append(self.apellido.as_str());
        s.append(mensajes::ETIQUETA_DNI);
        s.append(self.dni.as_str());
        s
    }
}

/// The position of the first user of `lista` that holds the account `id`.
pub fn posicion_usuario(lista: &Vec<Usuario>, id: &AccountId) -> (r: Option<usize>)
    ensures
        match r {
            Some(i) => es_primer_usuario(vistas(lista@), *id, i as int),
            None => !contiene_usuario(vistas(lista@), *id),
        },
{
    let mut i: usize = 0;
    while i < lista.len()
        invariant
            0 <= i <= lista@.len(),
            forall|j: int| 0 <= j < i ==> vistas(lista@)[j].id != *id,
        decreases lista@.len() - i,
    {
        if lista[i].id() == *id {
            return Some(i);
        }
        i = i + 1;
    }
    None
}

/// The accounts of the users of `lista`, in order.
pub fn ids_de_usuarios(lista: &Vec<Usuario>) -> (r: Vec<AccountId>)
    ensures
        r@ == ids_de(vistas(lista@)),
{
    let mut r: Vec<AccountId> = Vec::new();
    let mut i: usize = 0;
    while i < lista.len()
        invariant
            0 <= i <= lista@.len(),
            r@ == ids_de(vistas(lista@)).take(i as int),
        decreases lista@.len() - i,
    {
        r.push(lista[i].id());
        i = i + 1;
        assert(r@ =~= ids_de(vistas(lista@)).take(i as int));
    }
    assert(ids_de(vistas(lista@)).take(i as int) =~= ids_de(vistas(lista@)));
    r
}

} // verus!
