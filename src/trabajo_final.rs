//! The ledger: administrator, user directory, election registry, and the
//! operations that drive each election through enrollment, voting and
//! results. Every operation receives the caller's identity and, where time
//! matters, the current timestamp in milliseconds.

use vstd::prelude::*;

use crate::eleccion::{
    disjuntas, ids_en_cola, lema_contiene_agregar, lema_contiene_quitar_primero,
    lema_sin_repetidos_agregar, lema_sin_repetidos_quitar_primero, sin_repetidos, CandidatoConteo,
    Eleccion, Resultados, TIPO_DE_USUARIO, Votante,
};
use crate::errores::{ErrorSistema, Exito};
use crate::fechas::{fecha_a_milisegundos, milisegundos_de_fecha};
use crate::identidad::{codificar_hex, hex_de, AccountId};

verus! {

/// A user of the directory.
#[derive(Clone, Debug)]
pub struct Usuario {
    pub id: AccountId,
    pub nombre: String,
    pub apellido: String,
    pub dni: String,
}

pub struct TrabajoFinal {
    pub administrador: AccountId,
    pub generador_reportes: Option<AccountId>,
    pub registro_activado: bool,
    /// Accepted users.
    pub usuarios: Vec<Usuario>,
    /// Users waiting for admission, oldest first.
    pub usuarios_pendientes: Vec<Usuario>,
    /// Identities whose admission was refused.
    pub usuarios_rechazados: Vec<AccountId>,
    /// The registry: the election with id `i` stands at position `i - 1`.
    pub elecciones: Vec<Eleccion>,
}

/// The identities of a list of users, in order.
pub open spec fn ids_usuarios(s: Seq<Usuario>) -> Seq<AccountId> {
    s.map_values(|u: Usuario| u.id)
}

/// The voters of `a` are still voters of `b`, at the same positions, and
/// none whose vote was cast has lost it.
pub open spec fn votantes_conservados(a: Eleccion, b: Eleccion) -> bool {
    &&& a.votantes@.len() <= b.votantes@.len()
    &&& forall|j: int|
        0 <= j < a.votantes@.len() ==> {
            &&& (#[trigger] b.votantes@[j]).id == a.votantes@[j].id
            &&& a.votantes@[j].voto_emitido ==> b.votantes@[j].voto_emitido
        }
}

/// No election disappears, and every election keeps its voters and their
/// cast votes.
pub open spec fn votos_conservados(a: Seq<Eleccion>, b: Seq<Eleccion>) -> bool {
    &&& a.len() <= b.len()
    &&& forall|i: int| 0 <= i < a.len() ==> votantes_conservados(#[trigger] a[i], b[i])
}

/// `k` is the first position of `s` that holds a user with identity `id`.
pub open spec fn es_primer_usuario(s: Seq<Usuario>, id: AccountId, k: int) -> bool {
    &&& 0 <= k < s.len()
    &&& s[k].id == id
    &&& forall|j: int| 0 <= j < k ==> s[j].id != id
}

/// The first position of `s` that holds a user with identity `id`.
pub open spec fn primer_usuario(s: Seq<Usuario>, id: AccountId) -> int {
    choose|k: int| es_primer_usuario(s, id, k)
}

/// Where some user of `s` has identity `id`, `primer_usuario` is the first
/// such position.
pub proof fn lema_primer_usuario(s: Seq<Usuario>, id: AccountId)
    requires
        ids_usuarios(s).contains(id),
    ensures
        es_primer_usuario(s, id, primer_usuario(s, id)),
    decreases s.len(),
{
    if ids_usuarios(s.drop_last()).contains(id) {
        lema_primer_usuario(s.drop_last(), id);
        let i = primer_usuario(s.drop_last(), id);
        assert forall|j: int| 0 <= j <= i implies s[j] == s.drop_last()[j] by {}
        assert(es_primer_usuario(s, id, i));
    } else {
        assert forall|j: int| 0 <= j < s.len() - 1 implies s[j].id != id by {
            assert(s.drop_last()[j] == s[j]);
            assert(ids_usuarios(s.drop_last())[j] == s[j].id);
        }
        let k = choose|k: int| 0 <= k < ids_usuarios(s).len() && ids_usuarios(s)[k] == id;
        assert(es_primer_usuario(s, id, s.len() - 1));
    }
}

/// A user's name and surname, one per line.
pub open spec fn nombre_completo(u: Usuario) -> Seq<char> {
    "Nombre: "@ + u.nombre@ + "\nApellido: "@ + u.apellido@
}

/// A user's name, surname and national id, one per line.
pub open spec fn ficha(u: Usuario) -> Seq<char> {
    "Nombre: "@ + u.nombre@ + "\nApellido: "@ + u.apellido@ + "\nDNI: "@ + u.dni@
}

/// An enrollment request: the requester's identity in hexadecimal and the
/// role it asks for.
pub open spec fn solicitud(p: (AccountId, TIPO_DE_USUARIO)) -> Seq<char> {
    "Usuario: "@ + hex_de(p.0.bytes@) + match p.1 {
        TIPO_DE_USUARIO::VOTANTE => "\nEl usuario quiere ser un VOTANTE"@,
        TIPO_DE_USUARIO::CANDIDATO => "\nEl usuario quiere ser un CANDIDATO"@,
    }
}

/// The text of `ficha`.
fn texto_ficha(u: &Usuario) -> (r: String)
    ensures
        r@ == ficha(*u),
{
    let mut s = "Nombre: ".to_string();
    s.append(u.nombre.as_str());
    s.append("\nApellido: ");
    s.append(u.apellido.as_str());
    s.append("\nDNI: ");
    s.append(u.dni.as_str());
    s
}

impl TrabajoFinal {
    pub open spec fn es_registrado(&self, id: AccountId) -> bool {
        ids_usuarios(self.usuarios@).contains(id)
    }

    pub open spec fn es_pendiente(&self, id: AccountId) -> bool {
        ids_usuarios(self.usuarios_pendientes@).contains(id)
    }

    pub open spec fn es_rechazado(&self, id: AccountId) -> bool {
        self.usuarios_rechazados@.contains(id)
    }

    /// What the report generator `caller` learns of user `id`: the name,
    /// surname and national id of the accepted user with that identity;
    /// nothing for anyone else, or for an identity not accepted.
    pub open spec fn info_usuario(&self, caller: AccountId, id: AccountId) -> Option<(String, String, String)> {
        if self.generador_reportes == Some(caller) && self.es_registrado(id) {
            let u = self.usuarios@[primer_usuario(self.usuarios@, id)];
            Some((u.nombre, u.apellido, u.dni))
        } else {
            None
        }
    }

    pub open spec fn existe_eleccion_spec(&self, eleccion_id: u64) -> bool {
        1 <= eleccion_id && eleccion_id <= self.elecciones@.len()
    }

    /// The election with the given id; meaningful where it exists.
    pub open spec fn eleccion(&self, eleccion_id: u64) -> Eleccion {
        self.elecciones@[eleccion_id - 1]
    }

    /// Every identity that the election holds as candidate, voter or
    /// enrollment request belongs to an accepted user.
    pub open spec fn miembros_registrados(&self, e: Eleccion) -> bool {
        &&& forall|k: int|
            0 <= k < e.candidatos@.len() ==> self.es_registrado(#[trigger] e.candidatos@[k].id)
        &&& forall|k: int| 0 <= k < e.votantes@.len() ==> self.es_registrado(#[trigger] e.votantes@[k].id)
        &&& forall|k: int|
            0 <= k < e.usuarios_pendientes@.len() ==> self.es_registrado(#[trigger] e.usuarios_pendientes@[k].0)
    }

    /// The ledger's invariant: no identity twice in a directory queue; no
    /// identity in two of pending, accepted and rejected; elections numbered
    /// by their position, each well formed, and enrolling accepted users only.
    pub open spec fn bien_formado(&self) -> bool {
        &&& sin_repetidos(ids_usuarios(self.usuarios_pendientes@))
        &&& sin_repetidos(ids_usuarios(self.usuarios@))
        &&& sin_repetidos(self.usuarios_rechazados@)
        &&& disjuntas(ids_usuarios(self.usuarios_pendientes@), ids_usuarios(self.usuarios@))
        &&& disjuntas(ids_usuarios(self.usuarios_pendientes@), self.usuarios_rechazados@)
        &&& disjuntas(ids_usuarios(self.usuarios@), self.usuarios_rechazados@)
        &&& forall|i: int|
            0 <= i < self.elecciones@.len() ==> {
                &&& (#[trigger] self.elecciones@[i]).id == i + 1
                &&& self.elecciones@[i].bien_formada()
                &&& self.miembros_registrados(self.elecciones@[i])
            }
    }

    /// A ledger administered by `caller`, with registration off and nothing
    /// else in it.
    pub fn new(caller: AccountId) -> (r: TrabajoFinal)
        ensures
            r.administrador == caller,
            r.generador_reportes is None,
            !r.registro_activado,
            r.usuarios@.len() == 0,
            r.usuarios_pendientes@.len() == 0,
            r.usuarios_rechazados@.len() == 0,
            r.elecciones@.len() == 0,
            r.bien_formado(),
    {
        TrabajoFinal {
            administrador: caller,
            generador_reportes: None,
            registro_activado: false,
            usuarios: Vec::new(),
            usuarios_pendientes: Vec::new(),
            usuarios_rechazados: Vec::new(),
            elecciones: Vec::new(),
        }
    }

    /// Whether `caller` is the designated report generator.
    pub fn es_generador_reportes(&self, caller: AccountId) -> (r: bool)
        ensures
            r == (self.generador_reportes == Some(caller)),
    {
        match self.generador_reportes {
            None => false,
            Some(val) => caller == val,
        }
    }

    /// Whether `caller` is the administrator.
    pub fn es_administrador(&self, caller: AccountId) -> (r: bool)
        ensures
            r == (caller == self.administrador),
    {
        caller == self.administrador
    }

    /// The first accepted user with identity `id`, if any.
    pub fn obtener_usuario(&self, id: AccountId) -> (r: Option<&Usuario>)
        ensures
            r is None <==> !self.es_registrado(id),
            r matches Some(u) ==> exists|k: int| es_primer_usuario(self.usuarios@, id, k) && self.usuarios@[k] == *u,
    {
        let mut i: usize = 0;
        while i < self.usuarios.len()
            invariant
                0 <= i <= self.usuarios@.len(),
                forall|k: int| 0 <= k < i ==> self.usuarios@[k].id != id,
            decreases self.usuarios@.len() - i,
        {
            if self.usuarios[i].id == id {
                assert(ids_usuarios(self.usuarios@)[i as int] == id);
                return Some(&self.usuarios[i]);
            }
            i = i + 1;
        }
        assert(!self.es_registrado(id)) by {
            if self.es_registrado(id) {
                let k = choose|k: int|
                    0 <= k < ids_usuarios(self.usuarios@).len() && ids_usuarios(self.usuarios@)[k] == id;
                assert(self.usuarios@[k].id == id);
            }
        }
        None
    }

    /// Whether `caller` is an accepted user.
    pub fn es_usuario_registrado(&self, caller: AccountId) -> (r: bool)
        ensures
            r == self.es_registrado(caller),
    {
        self.obtener_usuario(caller).is_some()
    }

    /// Whether `caller` waits for admission.
    pub fn es_usuario_pendiente(&self, caller: AccountId) -> (r: bool)
        ensures
            r == self.es_pendiente(caller),
    {
        let mut i: usize = 0;
        while i < self.usuarios_pendientes.len()
            invariant
                0 <= i <= self.usuarios_pendientes@.len(),
                forall|k: int| 0 <= k < i ==> self.usuarios_pendientes@[k].id != caller,
            decreases self.usuarios_pendientes@.len() - i,
        {
            if self.usuarios_pendientes[i].id == caller {
                assert(ids_usuarios(self.usuarios_pendientes@)[i as int] == caller);
                return true;
            }
            i = i + 1;
        }
        assert(!self.es_pendiente(caller)) by {
            if self.es_pendiente(caller) {
                let k = choose|k: int|
                    0 <= k < ids_usuarios(self.usuarios_pendientes@).len()
                        && ids_usuarios(self.usuarios_pendientes@)[k] == caller;
                assert(self.usuarios_pendientes@[k].id == caller);
            }
        }
        false
    }

    /// Whether `caller`'s admission was refused.
    pub fn es_usuario_rechazado(&self, caller: AccountId) -> (r: bool)
        ensures
            r == self.es_rechazado(caller),
    {
        let mut i: usize = 0;
        while i < self.usuarios_rechazados.len()
            invariant
                0 <= i <= self.usuarios_rechazados@.len(),
                forall|k: int| 0 <= k < i ==> self.usuarios_rechazados@[k] != caller,
            decreases self.usuarios_rechazados@.len() - i,
        {
            if self.usuarios_rechazados[i] == caller {
                return true;
            }
            i = i + 1;
        }
        false
    }

    /// Whether an election has the id `eleccion_id`: ids run from one to the
    /// number of elections.
    pub fn existe_eleccion(&self, eleccion_id: u64) -> (r: bool)
        ensures
            r == self.existe_eleccion_spec(eleccion_id),
            self.elecciones@.len() <= usize::MAX,
    {
        let n = self.elecciones.len();
        eleccion_id >= 1 && eleccion_id <= n as u64
    }

    /// The election with id `eleccion_id`, if it exists.
    pub fn obtener_ref_eleccion_por_id(&self, eleccion_id: u64) -> (r: Option<&Eleccion>)
        ensures
            self.existe_eleccion_spec(eleccion_id) ==> r == Some(&self.eleccion(eleccion_id)),
            !self.existe_eleccion_spec(eleccion_id) ==> r is None,
    {
        if self.existe_eleccion(eleccion_id) {
            return Some(&self.elecciones[(eleccion_id - 1) as usize]);
        }
        None
    }

    /// The election with id `eleccion_id`, if it exists, for changing it.
    pub fn obtener_eleccion_por_id(&mut self, eleccion_id: u64) -> (r: Option<&mut Eleccion>)
        ensures
            old(self).existe_eleccion_spec(eleccion_id) ==> r is Some
                && *r->Some_0 == old(self).eleccion(eleccion_id)
                && final(self).elecciones@ == old(self).elecciones@.update(eleccion_id - 1, *final(r->Some_0))
                && final(self).administrador == old(self).administrador
                && final(self).generador_reportes == old(self).generador_reportes
                && final(self).registro_activado == old(self).registro_activado
                && final(self).usuarios == old(self).usuarios
                && final(self).usuarios_pendientes == old(self).usuarios_pendientes
                && final(self).usuarios_rechazados == old(self).usuarios_rechazados,
            !old(self).existe_eleccion_spec(eleccion_id) ==> r is None && *final(self) == *old(self),
    {
        if self.existe_eleccion(eleccion_id) {
            return Some(&mut self.elecciones[(eleccion_id - 1) as usize]);
        }
        None
    }

    /// The error with which `caller` fails to register, if it fails.
    pub open spec fn error_registro(&self, caller: AccountId) -> Option<ErrorSistema> {
        if !self.registro_activado {
            Some(ErrorSistema::RegistrationClosed)
        } else if caller == self.administrador {
            Some(ErrorSistema::CallerIsAdministrator)
        } else if self.es_rechazado(caller) {
            Some(ErrorSistema::AlreadyRejected)
        } else if self.es_registrado(caller) {
            Some(ErrorSistema::AlreadyRegistered)
        } else if self.es_pendiente(caller) {
            Some(ErrorSistema::AlreadyPending)
        } else {
            None
        }
    }

    /// `b` is `a` with only its admission queue changed, to `pendientes`.
    pub open spec fn solo_cambia_cola(a: TrabajoFinal, b: TrabajoFinal, pendientes: Seq<Usuario>) -> bool {
        &&& b.usuarios_pendientes@ == pendientes
        &&& b.administrador == a.administrador
        &&& b.generador_reportes == a.generador_reportes
        &&& b.registro_activado == a.registro_activado
        &&& b.usuarios == a.usuarios
        &&& b.usuarios_rechazados == a.usuarios_rechazados
        &&& b.elecciones == a.elecciones
    }

    /// `caller` asks to be admitted: it joins the end of the admission queue.
    pub fn registrarse(&mut self, caller: AccountId, nombre: String, apellido: String, dni: String) -> (r: Result<Exito, ErrorSistema>)
        ensures
            match old(self).error_registro(caller) {
                Some(e) => r == Err::<Exito, ErrorSistema>(e) && *final(self) == *old(self),
                None => r == Ok::<Exito, ErrorSistema>(Exito::RegistrationQueued) && Self::solo_cambia_cola(
                    *old(self),
                    *final(self),
                    old(self).usuarios_pendientes@.push(Usuario { id: caller, nombre, apellido, dni }),
                ),
            },
            old(self).bien_formado() ==> final(self).bien_formado(),
            votos_conservados(old(self).elecciones@, final(self).elecciones@),
    {
        self.registrarse_privado(caller, nombre, apellido, dni)
    }

    pub fn registrarse_privado(&mut self, caller: AccountId, nombre: String, apellido: String, dni: String) -> (r: Result<Exito, ErrorSistema>)
        ensures
            match old(self).error_registro(caller) {
                Some(e) => r == Err::<Exito, ErrorSistema>(e) && *final(self) == *old(self),
                None => r == Ok::<Exito, ErrorSistema>(Exito::RegistrationQueued) && Self::solo_cambia_cola(
                    *old(self),
                    *final(self),
                    old(self).usuarios_pendientes@.push(Usuario { id: caller, nombre, apellido, dni }),
                ),
            },
            old(self).bien_formado() ==> final(self).bien_formado(),
            votos_conservados(old(self).elecciones@, final(self).elecciones@),
    {
        if !self.registro_activado {
            return Err(ErrorSistema::RegistrationClosed);
        }
        if self.es_administrador(caller) {
            return Err(ErrorSistema::CallerIsAdministrator);
        }
        if self.es_usuario_rechazado(caller) {
            return Err(ErrorSistema::AlreadyRejected);
        }
        if self.es_usuario_registrado(caller) {
            return Err(ErrorSistema::AlreadyRegistered);
        }
        if self.es_usuario_pendiente(caller) {
            return Err(ErrorSistema::AlreadyPending);
        }
        let ghost antes = *self;
        let usuario = Usuario { id: caller, nombre, apellido, dni };
        self.usuarios_pendientes.push(usuario);
        proof {
            let pa = ids_usuarios(antes.usuarios_pendientes@);
            let pn = ids_usuarios(self.usuarios_pendientes@);
            assert(pn =~= pa.push(caller));
            if antes.bien_formado() {
                lema_sin_repetidos_agregar(pa, caller);
                assert forall|x: AccountId| pn.contains(x) implies !ids_usuarios(self.usuarios@).contains(x)
                    && !self.usuarios_rechazados@.contains(x) by {
                    lema_contiene_agregar(pa, caller, x);
                }
            }
            self.lema_votos_conservados_reflexivo();
        }
        Ok(Exito::RegistrationQueued)
    }

    pub proof fn lema_votos_conservados_reflexivo(&self)
        ensures
            votos_conservados(self.elecciones@, self.elecciones@),
    {
    }

    /// Where `b` has the elections of `a` and accepts everyone `a` accepts,
    /// the elections of `b` still enroll accepted users only.
    pub proof fn lema_miembros_crecen(a: TrabajoFinal, b: TrabajoFinal)
        requires
            a.elecciones == b.elecciones,
            forall|x: AccountId| a.es_registrado(x) ==> b.es_registrado(x),
        ensures
            forall|i: int|
                0 <= i < a.elecciones@.len() && a.miembros_registrados(a.elecciones@[i])
                    ==> b.miembros_registrados(#[trigger] b.elecciones@[i]),
    {
    }

    /// The error with which `caller` fails to process the admission queue,
    /// if it fails.
    pub open spec fn error_procesar_usuario(&self, caller: AccountId) -> Option<ErrorSistema> {
        if caller != self.administrador {
            Some(ErrorSistema::NotAdministrator)
        } else if self.usuarios_pendientes@.len() == 0 {
            Some(ErrorSistema::NoPendingUsers)
        } else {
            None
        }
    }

    /// `b` is `a` after the head of the admission queue, and only it, left
    /// the queue: accepted as a user, or with its identity rejected.
    pub open spec fn tras_procesar_usuario(a: TrabajoFinal, b: TrabajoFinal, aceptar_usuario: bool) -> bool {
        let u = a.usuarios_pendientes@[0];
        &&& b.usuarios_pendientes@ == a.usuarios_pendientes@.drop_first()
        &&& b.usuarios@ == if aceptar_usuario { a.usuarios@.push(u) } else { a.usuarios@ }
        &&& b.usuarios_rechazados@ == if aceptar_usuario {
            a.usuarios_rechazados@
        } else {
            a.usuarios_rechazados@.push(u.id)
        }
        &&& b.administrador == a.administrador
        &&& b.generador_reportes == a.generador_reportes
        &&& b.registro_activado == a.registro_activado
        &&& b.elecciones == a.elecciones
    }

    /// The administrator decides on the oldest admission request, and only
    /// on it.
    pub fn procesar_siguiente_usuario_pendiente(&mut self, caller: AccountId, aceptar_usuario: bool) -> (r: Result<Exito, ErrorSistema>)
        ensures
            match old(self).error_procesar_usuario(caller) {
                Some(e) => r == Err::<Exito, ErrorSistema>(e) && *final(self) == *old(self),
                None => r == Ok::<Exito, ErrorSistema>(
                    if aceptar_usuario { Exito::UserAccepted } else { Exito::UserRejected },
                ) && Self::tras_procesar_usuario(*old(self), *final(self), aceptar_usuario),
            },
            old(self).bien_formado() ==> final(self).bien_formado(),
            votos_conservados(old(self).elecciones@, final(self).elecciones@),
    {
        self.procesar_siguiente_usuario_pendiente_privado(caller, aceptar_usuario)
    }

    pub fn procesar_siguiente_usuario_pendiente_privado(&mut self, caller: AccountId, aceptar_usuario: bool) -> (r: Result<Exito, ErrorSistema>)
        ensures
            match old(self).error_procesar_usuario(caller) {
                Some(e) => r == Err::<Exito, ErrorSistema>(e) && *final(self) == *old(self),
                None => r == Ok::<Exito, ErrorSistema>(
                    if aceptar_usuario { Exito::UserAccepted } else { Exito::UserRejected },
                ) && Self::tras_procesar_usuario(*old(self), *final(self), aceptar_usuario),
            },
            old(self).bien_formado() ==> final(self).bien_formado(),
            votos_conservados(old(self).elecciones@, final(self).elecciones@),
    {
        if !self.es_administrador(caller) {
            return Err(ErrorSistema::NotAdministrator);
        }
        if self.usuarios_pendientes.len() == 0 {
            return Err(ErrorSistema::NoPendingUsers);
        }
        let ghost antes = *self;
        let usuario = self.usuarios_pendientes.remove(0);
        let ghost pa = ids_usuarios(antes.usuarios_pendientes@);
        let ghost pn = ids_usuarios(self.usuarios_pendientes@);
        let ghost ua = ids_usuarios(antes.usuarios@);
        let ghost ra = antes.usuarios_rechazados@;
        proof {
            assert(self.usuarios_pendientes@ =~= antes.usuarios_pendientes@.drop_first());
            assert(pn =~= pa.drop_first());
            assert(pa[0] == usuario.id);
            assert(pa.contains(usuario.id));
            if antes.bien_formado() {
                lema_sin_repetidos_quitar_primero(pa);
                assert forall|x: AccountId| pn.contains(x) implies pa.contains(x) by {
                    lema_contiene_quitar_primero(pa, x);
                }
            }
            antes.lema_votos_conservados_reflexivo();
        }
        if aceptar_usuario {
            let ghost id = usuario.id;
            self.usuarios.push(usuario);
            proof {
                let un = ids_usuarios(self.usuarios@);
                assert(un =~= ua.push(id));
                assert forall|x: AccountId| antes.es_registrado(x) implies self.es_registrado(x) by {
                    lema_contiene_agregar(ua, id, x);
                }
                Self::lema_miembros_crecen(antes, *self);
                if antes.bien_formado() {
                    lema_sin_repetidos_agregar(ua, id);
                    assert forall|x: AccountId| pn.contains(x) implies !un.contains(x) && !ra.contains(x) by {
                        lema_contiene_agregar(ua, id, x);
                    }
                    assert forall|x: AccountId| un.contains(x) implies !ra.contains(x) by {
                        lema_contiene_agregar(ua, id, x);
                    }
                }
            }
            Ok(Exito::UserAccepted)
        } else {
            self.usuarios_rechazados.push(usuario.id);
            proof {
                let rn = self.usuarios_rechazados@;
                if antes.bien_formado() {
                    lema_sin_repetidos_agregar(ra, usuario.id);
                    assert forall|x: AccountId| pn.contains(x) implies !rn.contains(x) by {
                        lema_contiene_agregar(ra, usuario.id, x);
                    }
                    assert forall|x: AccountId| ua.contains(x) implies !rn.contains(x) by {
                        lema_contiene_agregar(ra, usuario.id, x);
                    }
                }
            }
            Ok(Exito::UserRejected)
        }
    }

    /// The error with which `caller`, who is not the administrator, fails;
    /// nothing for the administrator.
    pub open spec fn error_administrador(&self, caller: AccountId) -> Option<ErrorSistema> {
        if caller != self.administrador {
            Some(ErrorSistema::NotAdministrator)
        } else {
            None
        }
    }

    /// The administrator reads the oldest admission request: name, surname
    /// and national id.
    pub fn obtener_informacion_siguiente_usuario_pendiente(&self, caller: AccountId) -> (r: Result<String, ErrorSistema>)
        ensures
            caller != self.administrador ==> r == Err::<String, ErrorSistema>(ErrorSistema::NotAdministrator),
            caller == self.administrador && self.usuarios_pendientes@.len() == 0 ==> r == Err::<String, ErrorSistema>(
                ErrorSistema::NoPendingUsers,
            ),
            caller == self.administrador && self.usuarios_pendientes@.len() > 0 ==> r is Ok && r->Ok_0@ == ficha(
                self.usuarios_pendientes@[0],
            ),
    {
        self.obtener_informacion_siguiente_usuario_pendiente_privado(caller)
    }

    pub fn obtener_informacion_siguiente_usuario_pendiente_privado(&self, caller: AccountId) -> (r: Result<String, ErrorSistema>)
        ensures
            caller != self.administrador ==> r == Err::<String, ErrorSistema>(ErrorSistema::NotAdministrator),
            caller == self.administrador && self.usuarios_pendientes@.len() == 0 ==> r == Err::<String, ErrorSistema>(
                ErrorSistema::NoPendingUsers,
            ),
            caller == self.administrador && self.usuarios_pendientes@.len() > 0 ==> r is Ok && r->Ok_0@ == ficha(
                self.usuarios_pendientes@[0],
            ),
    {
        if !self.es_administrador(caller) {
            return Err(ErrorSistema::NotAdministrator);
        }
        if self.usuarios_pendientes.len() == 0 {
            return Err(ErrorSistema::NoPendingUsers);
        }
        Ok(texto_ficha(&self.usuarios_pendientes[0]))
    }

    /// `b` is `a` with only the registration switch changed, to `activado`.
    pub open spec fn solo_cambia_registro(a: TrabajoFinal, b: TrabajoFinal, activado: bool) -> bool {
        &&& b.registro_activado == activado
        &&& b.administrador == a.administrador
        &&& b.generador_reportes == a.generador_reportes
        &&& b.usuarios == a.usuarios
        &&& b.usuarios_pendientes == a.usuarios_pendientes
        &&& b.usuarios_rechazados == a.usuarios_rechazados
        &&& b.elecciones == a.elecciones
    }

    /// The error with which `caller` fails to set the registration switch
    /// to `activado`, if it fails: setting it to its current state fails.
    pub open spec fn error_registro_activado(&self, caller: AccountId, activado: bool) -> Option<ErrorSistema> {
        if caller != self.administrador {
            Some(ErrorSistema::NotAdministrator)
        } else if self.registro_activado == activado {
            Some(if activado { ErrorSistema::AlreadyActivated } else { ErrorSistema::AlreadyDeactivated })
        } else {
            None
        }
    }

    /// The administrator opens registration; it fails if it is already open.
    pub fn activar_registro(&mut self, caller: AccountId) -> (r: Result<Exito, ErrorSistema>)
        ensures
            match old(self).error_registro_activado(caller, true) {
                Some(e) => r == Err::<Exito, ErrorSistema>(e) && *final(self) == *old(self),
                None => r == Ok::<Exito, ErrorSistema>(Exito::RegistrationActivated)
                    && Self::solo_cambia_registro(*old(self), *final(self), true),
            },
            old(self).bien_formado() ==> final(self).bien_formado(),
            votos_conservados(old(self).elecciones@, final(self).elecciones@),
    {
        self.activar_registro_privado(caller)
    }

    pub fn activar_registro_privado(&mut self, caller: AccountId) -> (r: Result<Exito, ErrorSistema>)
        ensures
            match old(self).error_registro_activado(caller, true) {
                Some(e) => r == Err::<Exito, ErrorSistema>(e) && *final(self) == *old(self),
                None => r == Ok::<Exito, ErrorSistema>(Exito::RegistrationActivated)
                    && Self::solo_cambia_registro(*old(self), *final(self), true),
            },
            old(self).bien_formado() ==> final(self).bien_formado(),
            votos_conservados(old(self).elecciones@, final(self).elecciones@),
    {
        proof {
            self.lema_votos_conservados_reflexivo();
        }
        if !self.es_administrador(caller) {
            return Err(ErrorSistema::NotAdministrator);
        }
        if self.registro_activado {
            return Err(ErrorSistema::AlreadyActivated);
        }
        self.registro_activado = true;
        Ok(Exito::RegistrationActivated)
    }

    /// The administrator closes registration; it fails if it is already
    /// closed.
    pub fn desactivar_registro(&mut self, caller: AccountId) -> (r: Result<Exito, ErrorSistema>)
        ensures
            match old(self).error_registro_activado(caller, false) {
                Some(e) => r == Err::<Exito, ErrorSistema>(e) && *final(self) == *old(self),
                None => r == Ok::<Exito, ErrorSistema>(Exito::RegistrationDeactivated)
                    && Self::solo_cambia_registro(*old(self), *final(self), false),
            },
            old(self).bien_formado() ==> final(self).bien_formado(),
            votos_conservados(old(self).elecciones@, final(self).elecciones@),
    {
        self.desactivar_registro_privado(caller)
    }

    pub fn desactivar_registro_privado(&mut self, caller: AccountId) -> (r: Result<Exito, ErrorSistema>)
        ensures
            match old(self).error_registro_activado(caller, false) {
                Some(e) => r == Err::<Exito, ErrorSistema>(e) && *final(self) == *old(self),
                None => r == Ok::<Exito, ErrorSistema>(Exito::RegistrationDeactivated)
                    && Self::solo_cambia_registro(*old(self), *final(self), false),
            },
            old(self).bien_formado() ==> final(self).bien_formado(),
            votos_conservados(old(self).elecciones@, final(self).elecciones@),
    {
        proof {
            self.lema_votos_conservados_reflexivo();
        }
        if !self.es_administrador(caller) {
            return Err(ErrorSistema::NotAdministrator);
        }
        if !self.registro_activado {
            return Err(ErrorSistema::AlreadyDeactivated);
        }
        self.registro_activado = false;
        Ok(Exito::RegistrationDeactivated)
    }

    /// `b` is `a` with only the administrator and the report generator
    /// changed, to `administrador` and `generador`.
    pub open spec fn solo_cambian_roles(
        a: TrabajoFinal,
        b: TrabajoFinal,
        administrador: AccountId,
        generador: Option<AccountId>,
    ) -> bool {
        &&& b.administrador == administrador
        &&& b.generador_reportes == generador
        &&& b.registro_activado == a.registro_activado
        &&& b.usuarios == a.usuarios
        &&& b.usuarios_pendientes == a.usuarios_pendientes
        &&& b.usuarios_rechazados == a.usuarios_rechazados
        &&& b.elecciones == a.elecciones
    }

    /// The administrator hands the role to `id`, at once and without its
    /// consent.
    pub fn transferir_administrador(&mut self, caller: AccountId, id: AccountId) -> (r: Result<Exito, ErrorSistema>)
        ensures
            match old(self).error_administrador(caller) {
                Some(e) => r == Err::<Exito, ErrorSistema>(e) && *final(self) == *old(self),
                None => r == Ok::<Exito, ErrorSistema>(Exito::AdministratorTransferred)
                    && Self::solo_cambian_roles(*old(self), *final(self), id, old(self).generador_reportes),
            },
            old(self).bien_formado() ==> final(self).bien_formado(),
            votos_conservados(old(self).elecciones@, final(self).elecciones@),
    {
        self.transferir_administrador_privado(caller, id)
    }

    pub fn transferir_administrador_privado(&mut self, caller: AccountId, id: AccountId) -> (r: Result<Exito, ErrorSistema>)
        ensures
            match old(self).error_administrador(caller) {
                Some(e) => r == Err::<Exito, ErrorSistema>(e) && *final(self) == *old(self),
                None => r == Ok::<Exito, ErrorSistema>(Exito::AdministratorTransferred)
                    && Self::solo_cambian_roles(*old(self), *final(self), id, old(self).generador_reportes),
            },
            old(self).bien_formado() ==> final(self).bien_formado(),
            votos_conservados(old(self).elecciones@, final(self).elecciones@),
    {
        proof {
            self.lema_votos_conservados_reflexivo();
        }
        if !self.es_administrador(caller) {
            return Err(ErrorSistema::NotAdministrator);
        }
        self.administrador = id;
        Ok(Exito::AdministratorTransferred)
    }

    /// The administrator designates `id` as the report generator.
    pub fn asignar_generador_reportes(&mut self, caller: AccountId, id: AccountId) -> (r: Result<Exito, ErrorSistema>)
        ensures
            match old(self).error_administrador(caller) {
                Some(e) => r == Err::<Exito, ErrorSistema>(e) && *final(self) == *old(self),
                None => r == Ok::<Exito, ErrorSistema>(Exito::ReportGeneratorAssigned)
                    && Self::solo_cambian_roles(*old(self), *final(self), old(self).administrador, Some(id)),
            },
            old(self).bien_formado() ==> final(self).bien_formado(),
            votos_conservados(old(self).elecciones@, final(self).elecciones@),
    {
        self.asignar_generador_reportes_privado(caller, id)
    }

    pub fn asignar_generador_reportes_privado(&mut self, caller: AccountId, id: AccountId) -> (r: Result<Exito, ErrorSistema>)
        ensures
            match old(self).error_administrador(caller) {
                Some(e) => r == Err::<Exito, ErrorSistema>(e) && *final(self) == *old(self),
                None => r == Ok::<Exito, ErrorSistema>(Exito::ReportGeneratorAssigned)
                    && Self::solo_cambian_roles(*old(self), *final(self), old(self).administrador, Some(id)),
            },
            old(self).bien_formado() ==> final(self).bien_formado(),
            votos_conservados(old(self).elecciones@, final(self).elecciones@),
    {
        proof {
            self.lema_votos_conservados_reflexivo();
        }
        if !self.es_administrador(caller) {
            return Err(ErrorSistema::NotAdministrator);
        }
        self.generador_reportes = Some(id);
        Ok(Exito::ReportGeneratorAssigned)
    }

    /// `b` is `a` with only the registry changed, to `elecciones`.
    pub open spec fn solo_cambian_elecciones(a: TrabajoFinal, b: TrabajoFinal, elecciones: Seq<Eleccion>) -> bool {
        &&& b.elecciones@ == elecciones
        &&& b.administrador == a.administrador
        &&& b.generador_reportes == a.generador_reportes
        &&& b.registro_activado == a.registro_activado
        &&& b.usuarios == a.usuarios
        &&& b.usuarios_pendientes == a.usuarios_pendientes
        &&& b.usuarios_rechazados == a.usuarios_rechazados
    }

    /// Replacing one election of a well-formed ledger by a well-formed
    /// election with the same id, whose members are accepted users, keeps
    /// the ledger well formed.
    pub proof fn lema_reemplazar_eleccion(a: TrabajoFinal, b: TrabajoFinal, i: int, e: Eleccion)
        requires
            a.bien_formado(),
            0 <= i < a.elecciones@.len(),
            Self::solo_cambian_elecciones(a, b, a.elecciones@.update(i, e)),
            e.id == i + 1,
            e.bien_formada(),
            a.miembros_registrados(e),
        ensures
            b.bien_formado(),
    {
        assert forall|j: int| 0 <= j < b.elecciones@.len() implies {
            &&& (#[trigger] b.elecciones@[j]).id == j + 1
            &&& b.elecciones@[j].bien_formada()
            &&& b.miembros_registrados(b.elecciones@[j])
        } by {
            if j != i {
                assert(b.elecciones@[j] == a.elecciones@[j]);
            }
        }
    }

    /// Replacing one election by one that keeps its voters and their cast
    /// votes keeps every cast vote of the registry.
    pub proof fn lema_conservar_al_reemplazar(a: Seq<Eleccion>, i: int, e: Eleccion)
        requires
            0 <= i < a.len(),
            votantes_conservados(a[i], e),
        ensures
            votos_conservados(a, a.update(i, e)),
    {
        assert forall|j: int| 0 <= j < a.len() implies votantes_conservados(#[trigger] a[j], a.update(i, e)[j]) by {
            if j != i {
                assert(a.update(i, e)[j] == a[j]);
            }
        }
    }

    /// The error with which `caller` fails to create an election whose
    /// window, in milliseconds, the two dates gave, if it fails.
    pub open spec fn error_crear_eleccion(&self, caller: AccountId, inicio: Option<i64>, fin: Option<i64>) -> Option<ErrorSistema> {
        if caller != self.administrador {
            Some(ErrorSistema::NotAdministrator)
        } else if inicio is None {
            Some(ErrorSistema::BadStartDate)
        } else if fin is None {
            Some(ErrorSistema::BadEndDate)
        } else if self.elecciones@.len() + 1 > u64::MAX {
            Some(ErrorSistema::ElectionIdOverflow)
        } else {
            None
        }
    }

    /// `b` is `a` with one more election at the end of the registry: the
    /// next id, the window `inicio..fin` read as unsigned milliseconds, and
    /// nothing in it yet.
    pub open spec fn tras_crear_eleccion(a: TrabajoFinal, b: TrabajoFinal, inicio: i64, fin: i64) -> bool {
        &&& b.elecciones@.len() == a.elecciones@.len() + 1
        &&& b.elecciones@.drop_last() == a.elecciones@
        &&& b.elecciones@.last().es_nueva((a.elecciones@.len() + 1) as u64, inicio as u64, fin as u64)
        &&& b.administrador == a.administrador
        &&& b.generador_reportes == a.generador_reportes
        &&& b.registro_activado == a.registro_activado
        &&& b.usuarios == a.usuarios
        &&& b.usuarios_pendientes == a.usuarios_pendientes
        &&& b.usuarios_rechazados == a.usuarios_rechazados
    }

    /// The administrator creates an election whose start and end the parsed
    /// dates gave, as milliseconds (`None` where a date did not parse).
    pub fn crear_eleccion_con_marcas(&mut self, caller: AccountId, inicio: Option<i64>, fin: Option<i64>) -> (r: Result<Exito, ErrorSistema>)
        ensures
            match old(self).error_crear_eleccion(caller, inicio, fin) {
                Some(e) => r == Err::<Exito, ErrorSistema>(e) && *final(self) == *old(self),
                None => r == Ok::<Exito, ErrorSistema>(Exito::ElectionCreated((old(self).elecciones@.len() + 1) as u64))
                    && Self::tras_crear_eleccion(*old(self), *final(self), inicio->Some_0, fin->Some_0),
            },
            old(self).bien_formado() ==> final(self).bien_formado(),
            votos_conservados(old(self).elecciones@, final(self).elecciones@),
    {
        if !self.es_administrador(caller) {
            return Err(ErrorSistema::NotAdministrator);
        }
        let inicio = match inicio {
            Some(m) => m,
            None => return Err(ErrorSistema::BadStartDate),
        };
        let fin = match fin {
            Some(m) => m,
            None => return Err(ErrorSistema::BadEndDate),
        };
        let n = self.elecciones.len() as u64;
        if n == u64::MAX {
            return Err(ErrorSistema::ElectionIdOverflow);
        }
        let eleccion_id = n + 1;
        let ghost antes = *self;
        let eleccion = Eleccion {
            id: eleccion_id,
            candidatos: Vec::new(),
            votantes: Vec::new(),
            usuarios_pendientes: Vec::new(),
            usuarios_rechazados: Vec::new(),
            votacion_iniciada: false,
            fecha_inicio: inicio as u64,
            fecha_final: fin as u64,
            resultados: None,
        };
        self.elecciones.push(eleccion);
        proof {
            assert(self.elecciones@.drop_last() =~= antes.elecciones@);
            assert(eleccion.votantes@ =~= Seq::<Votante>::empty());
            assert(eleccion.candidatos@ =~= Seq::<CandidatoConteo>::empty());
            assert(ids_en_cola(eleccion.usuarios_pendientes@) =~= Seq::<AccountId>::empty());
            assert forall|i: int| 0 <= i < antes.elecciones@.len() implies votantes_conservados(
                #[trigger] antes.elecciones@[i],
                self.elecciones@[i],
            ) by {
                assert(self.elecciones@[i] == antes.elecciones@[i]);
            }
            if antes.bien_formado() {
                assert forall|j: int| 0 <= j < self.elecciones@.len() implies {
                    &&& (#[trigger] self.elecciones@[j]).id == j + 1
                    &&& self.elecciones@[j].bien_formada()
                    &&& self.miembros_registrados(self.elecciones@[j])
                } by {
                    if j < antes.elecciones@.len() {
                        assert(self.elecciones@[j] == antes.elecciones@[j]);
                    }
                }
            }
        }
        Ok(Exito::ElectionCreated(eleccion_id))
    }

    /// The administrator creates an election open from `fecha_inicial` to
    /// `fecha_final`, both written `dd-mm-YYYY hh:mm` and read as UTC.
    pub fn crear_eleccion(&mut self, caller: AccountId, fecha_inicial: String, fecha_final: String) -> (r: Result<Exito, ErrorSistema>)
        ensures
            ({
                let inicio = milisegundos_de_fecha(fecha_inicial@);
                let fin = milisegundos_de_fecha(fecha_final@);
                match old(self).error_crear_eleccion(caller, inicio, fin) {
                    Some(e) => r == Err::<Exito, ErrorSistema>(e) && *final(self) == *old(self),
                    None => r == Ok::<Exito, ErrorSistema>(Exito::ElectionCreated((old(self).elecciones@.len() + 1) as u64))
                        && Self::tras_crear_eleccion(*old(self), *final(self), inicio->Some_0, fin->Some_0),
                }
            }),
            old(self).bien_formado() ==> final(self).bien_formado(),
            votos_conservados(old(self).elecciones@, final(self).elecciones@),
    {
        self.crear_eleccion_privado(caller, fecha_inicial, fecha_final)
    }

    pub fn crear_eleccion_privado(&mut self, caller: AccountId, fecha_inicial: String, fecha_final: String) -> (r: Result<Exito, ErrorSistema>)
        ensures
            ({
                let inicio = milisegundos_de_fecha(fecha_inicial@);
                let fin = milisegundos_de_fecha(fecha_final@);
                match old(self).error_crear_eleccion(caller, inicio, fin) {
                    Some(e) => r == Err::<Exito, ErrorSistema>(e) && *final(self) == *old(self),
                    None => r == Ok::<Exito, ErrorSistema>(Exito::ElectionCreated((old(self).elecciones@.len() + 1) as u64))
                        && Self::tras_crear_eleccion(*old(self), *final(self), inicio->Some_0, fin->Some_0),
                }
            }),
            old(self).bien_formado() ==> final(self).bien_formado(),
            votos_conservados(old(self).elecciones@, final(self).elecciones@),
    {
        let inicio = fecha_a_milisegundos(fecha_inicial.as_str());
        let fin = fecha_a_milisegundos(fecha_final.as_str());
        self.crear_eleccion_con_marcas(caller, inicio, fin)
    }

    /// `b` holds what `a` holds, field by field and element by element.
    pub open spec fn sin_cambios(a: TrabajoFinal, b: TrabajoFinal) -> bool {
        &&& b.administrador == a.administrador
        &&& b.generador_reportes == a.generador_reportes
        &&& b.registro_activado == a.registro_activado
        &&& b.usuarios@ == a.usuarios@
        &&& b.usuarios_pendientes@ == a.usuarios_pendientes@
        &&& b.usuarios_rechazados@ == a.usuarios_rechazados@
        &&& b.elecciones@ == a.elecciones@
    }

    /// The error with which the administrator `caller` fails to start the
    /// voting of election `eleccion_id` at time `ahora`, if it fails.
    pub open spec fn error_iniciar(&self, caller: AccountId, ahora: u64, eleccion_id: u64) -> Option<ErrorSistema> {
        if caller != self.administrador {
            Some(ErrorSistema::NotAdministrator)
        } else if !self.existe_eleccion_spec(eleccion_id) {
            Some(ErrorSistema::ElectionNotFound)
        } else if ahora > self.eleccion(eleccion_id).fecha_final {
            Some(ErrorSistema::VotingEnded)
        } else if self.eleccion(eleccion_id).votacion_iniciada {
            Some(ErrorSistema::AlreadyStarted)
        } else if ahora < self.eleccion(eleccion_id).fecha_inicio {
            Some(ErrorSistema::TooEarly)
        } else {
            None
        }
    }

    /// The administrator starts the voting of an election within its window.
    pub fn iniciar_votacion(&mut self, caller: AccountId, ahora: u64, eleccion_id: u64) -> (r: Result<Exito, ErrorSistema>)
        ensures
            match old(self).error_iniciar(caller, ahora, eleccion_id) {
                Some(e) => r == Err::<Exito, ErrorSistema>(e) && *final(self) == *old(self),
                None => r == Ok::<Exito, ErrorSistema>(Exito::VotingStarted) && Self::solo_cambian_elecciones(
                    *old(self),
                    *final(self),
                    old(self).elecciones@.update(
                        eleccion_id - 1,
                        Eleccion { votacion_iniciada: true, ..old(self).eleccion(eleccion_id) },
                    ),
                ),
            },
            old(self).bien_formado() ==> final(self).bien_formado(),
            votos_conservados(old(self).elecciones@, final(self).elecciones@),
    {
        self.iniciar_votacion_privado(caller, ahora, eleccion_id)
    }

    pub fn iniciar_votacion_privado(&mut self, caller: AccountId, ahora: u64, eleccion_id: u64) -> (r: Result<Exito, ErrorSistema>)
        ensures
            match old(self).error_iniciar(caller, ahora, eleccion_id) {
                Some(e) => r == Err::<Exito, ErrorSistema>(e) && *final(self) == *old(self),
                None => r == Ok::<Exito, ErrorSistema>(Exito::VotingStarted) && Self::solo_cambian_elecciones(
                    *old(self),
                    *final(self),
                    old(self).elecciones@.update(
                        eleccion_id - 1,
                        Eleccion { votacion_iniciada: true, ..old(self).eleccion(eleccion_id) },
                    ),
                ),
            },
            old(self).bien_formado() ==> final(self).bien_formado(),
            votos_conservados(old(self).elecciones@, final(self).elecciones@),
    {
        if !self.es_administrador(caller) {
            return Err(ErrorSistema::NotAdministrator);
        }
        if !self.existe_eleccion(eleccion_id) {
            return Err(ErrorSistema::ElectionNotFound);
        }
        let idx = (eleccion_id - 1) as usize;
        if ahora > self.elecciones[idx].fecha_final {
            return Err(ErrorSistema::VotingEnded);
        }
        if self.elecciones[idx].votacion_iniciada {
            return Err(ErrorSistema::AlreadyStarted);
        }
        if ahora < self.elecciones[idx].fecha_inicio {
            return Err(ErrorSistema::TooEarly);
        }
        let ghost antes = *self;
        self.elecciones[idx].votacion_iniciada = true;
        proof {
            let e = Eleccion { votacion_iniciada: true, ..antes.eleccion(eleccion_id) };
            assert(self.elecciones@ =~= antes.elecciones@.update(idx as int, e));
            Self::lema_conservar_al_reemplazar(antes.elecciones@, idx as int, e);
            if antes.bien_formado() {
                Self::lema_reemplazar_eleccion(antes, *self, idx as int, e);
            }
        }
        Ok(Exito::VotingStarted)
    }

    /// The error with which election `eleccion_id` refuses the enrollment of
    /// `id_usuario` at time `ahora`, before its rejected list is consulted.
    pub open spec fn error_validar(&self, eleccion_id: u64, ahora: u64, id_usuario: AccountId) -> Option<ErrorSistema> {
        if !self.existe_eleccion_spec(eleccion_id) {
            Some(ErrorSistema::ElectionNotFound)
        } else if ids_en_cola(self.eleccion(eleccion_id).usuarios_pendientes@).contains(id_usuario) {
            Some(ErrorSistema::AlreadyEnrolled)
        } else if self.eleccion(eleccion_id).votacion_iniciada || ahora >= self.eleccion(eleccion_id).fecha_inicio {
            Some(ErrorSistema::VotingAlreadyStarted)
        } else if ahora >= self.eleccion(eleccion_id).fecha_final {
            Some(ErrorSistema::ElectionEnded)
        } else {
            None
        }
    }

    /// The election `eleccion_id`, if `id_usuario` may still ask to enroll
    /// in it at time `ahora`: it exists, the user is not queued there yet,
    /// and enrollment is still open.
    pub fn validar_estado_eleccion(&self, eleccion_id: u64, ahora: u64, id_usuario: AccountId) -> (r: Result<&Eleccion, ErrorSistema>)
        ensures
            match self.error_validar(eleccion_id, ahora, id_usuario) {
                Some(e) => r == Err::<&Eleccion, ErrorSistema>(e),
                None => r == Ok::<&Eleccion, ErrorSistema>(&self.eleccion(eleccion_id)),
            },
    {
        let eleccion = match self.obtener_ref_eleccion_por_id(eleccion_id) {
            Some(e) => e,
            None => return Err(ErrorSistema::ElectionNotFound),
        };
        if eleccion.contiene_usuario_pendiente(id_usuario) {
            return Err(ErrorSistema::AlreadyEnrolled);
        }
        if eleccion.votacion_iniciada || ahora >= eleccion.fecha_inicio {
            return Err(ErrorSistema::VotingAlreadyStarted);
        }
        if ahora >= eleccion.fecha_final {
            return Err(ErrorSistema::ElectionEnded);
        }
        Ok(eleccion)
    }

    /// The error with which `caller` fails to enroll in election
    /// `eleccion_id` at time `ahora`, if it fails.
    pub open spec fn error_ingresar(&self, caller: AccountId, ahora: u64, eleccion_id: u64) -> Option<ErrorSistema> {
        if !self.es_registrado(caller) {
            Some(ErrorSistema::NotRegistered)
        } else if self.error_validar(eleccion_id, ahora, caller) is Some {
            self.error_validar(eleccion_id, ahora, caller)
        } else if self.eleccion(eleccion_id).usuarios_rechazados@.contains(caller) {
            Some(ErrorSistema::PreviouslyRejected)
        } else {
            None
        }
    }

    /// The election `e` with `(caller, tipo)` appended to its enrollment
    /// queue.
    pub open spec fn con_solicitud(e: Eleccion, caller: AccountId, tipo: TIPO_DE_USUARIO, nueva: Eleccion) -> bool {
        &&& nueva.usuarios_pendientes@ == e.usuarios_pendientes@.push((caller, tipo))
        &&& nueva.id == e.id
        &&& nueva.candidatos == e.candidatos
        &&& nueva.votantes == e.votantes
        &&& nueva.usuarios_rechazados == e.usuarios_rechazados
        &&& nueva.votacion_iniciada == e.votacion_iniciada
        &&& nueva.fecha_inicio == e.fecha_inicio
        &&& nueva.fecha_final == e.fecha_final
        &&& nueva.resultados == e.resultados
    }

    /// An accepted user asks to enroll in an election, as voter or as
    /// candidate, while enrollment is open: the request joins the end of the
    /// election's queue.
    pub fn ingresar_a_eleccion(&mut self, caller: AccountId, ahora: u64, eleccion_id: u64, tipo: TIPO_DE_USUARIO) -> (r: Result<Exito, ErrorSistema>)
        ensures
            match old(self).error_ingresar(caller, ahora, eleccion_id) {
                Some(e) => r == Err::<Exito, ErrorSistema>(e) && *final(self) == *old(self),
                None => r == Ok::<Exito, ErrorSistema>(Exito::EnrollmentQueued)
                    && final(self).elecciones@.len() == old(self).elecciones@.len()
                    && Self::solo_cambian_elecciones(
                        *old(self),
                        *final(self),
                        old(self).elecciones@.update(eleccion_id - 1, final(self).eleccion(eleccion_id)),
                    )
                    && Self::con_solicitud(old(self).eleccion(eleccion_id), caller, tipo, final(self).eleccion(eleccion_id)),
            },
            old(self).bien_formado() ==> final(self).bien_formado(),
            votos_conservados(old(self).elecciones@, final(self).elecciones@),
    {
        self.ingresar_a_eleccion_privado(caller, ahora, eleccion_id, tipo)
    }

    pub fn ingresar_a_eleccion_privado(&mut self, caller: AccountId, ahora: u64, eleccion_id: u64, tipo: TIPO_DE_USUARIO) -> (r: Result<Exito, ErrorSistema>)
        ensures
            match old(self).error_ingresar(caller, ahora, eleccion_id) {
                Some(e) => r == Err::<Exito, ErrorSistema>(e) && *final(self) == *old(self),
                None => r == Ok::<Exito, ErrorSistema>(Exito::EnrollmentQueued)
                    && final(self).elecciones@.len() == old(self).elecciones@.len()
                    && Self::solo_cambian_elecciones(
                        *old(self),
                        *final(self),
                        old(self).elecciones@.update(eleccion_id - 1, final(self).eleccion(eleccion_id)),
                    )
                    && Self::con_solicitud(old(self).eleccion(eleccion_id), caller, tipo, final(self).eleccion(eleccion_id)),
            },
            old(self).bien_formado() ==> final(self).bien_formado(),
            votos_conservados(old(self).elecciones@, final(self).elecciones@),
    {
        if !self.es_usuario_registrado(caller) {
            return Err(ErrorSistema::NotRegistered);
        }
        match self.validar_estado_eleccion(eleccion_id, ahora, caller) {
            Err(e) => return Err(e),
            Ok(_) => {},
        }
        proof {
            assert(self.elecciones.len() == self.elecciones@.len());
        }
        let idx = (eleccion_id - 1) as usize;
        let mut k: usize = 0;
        while k < self.elecciones[idx].usuarios_rechazados.len()
            invariant
                0 <= idx < self.elecciones@.len(),
                idx == eleccion_id - 1,
                self.es_registrado(caller),
                self.error_validar(eleccion_id, ahora, caller) is None,
                0 <= k <= self.elecciones@[idx as int].usuarios_rechazados@.len(),
                forall|j: int| 0 <= j < k ==> self.elecciones@[idx as int].usuarios_rechazados@[j] != caller,
            decreases self.elecciones@[idx as int].usuarios_rechazados@.len() - k,
        {
            if self.elecciones[idx].usuarios_rechazados[k] == caller {
                assert(self.elecciones@[idx as int].usuarios_rechazados@[k as int] == caller);
                return Err(ErrorSistema::PreviouslyRejected);
            }
            k = k + 1;
        }
        let ghost antes = *self;
        let ghost e0 = antes.elecciones@[idx as int];
        self.elecciones[idx].usuarios_pendientes.push((caller, tipo));
        proof {
            let e = self.elecciones@[idx as int];
            assert(self.elecciones@ =~= antes.elecciones@.update(idx as int, e));
            assert(votantes_conservados(e0, e));
            Self::lema_conservar_al_reemplazar(antes.elecciones@, idx as int, e);
            let pa = ids_en_cola(e0.usuarios_pendientes@);
            assert(ids_en_cola(e.usuarios_pendientes@) =~= pa.push(caller));
            if antes.bien_formado() {
                assert(e0.id == idx + 1);
                assert(e0.bien_formada());
                lema_sin_repetidos_agregar(pa, caller);
                assert forall|x: AccountId| ids_en_cola(e.usuarios_pendientes@).contains(x) implies !e.usuarios_rechazados@.contains(x) by {
                    lema_contiene_agregar(pa, caller, x);
                }
                assert(antes.miembros_registrados(e0));
                assert forall|k: int| 0 <= k < e.usuarios_pendientes@.len() implies antes.es_registrado(
                    #[trigger] e.usuarios_pendientes@[k].0,
                ) by {
                    if k < e0.usuarios_pendientes@.len() {
                        assert(e.usuarios_pendientes@[k] == e0.usuarios_pendientes@[k]);
                    }
                }
                Self::lema_reemplazar_eleccion(antes, *self, idx as int, e);
            }
        }
        Ok(Exito::EnrollmentQueued)
    }

    /// The error with which the administrator `caller` fails to process the
    /// enrollment queue of election `eleccion_id`, if it fails.
    pub open spec fn error_procesar_en_eleccion(&self, caller: AccountId, eleccion_id: u64, aceptar_usuario: bool) -> Option<ErrorSistema> {
        if caller != self.administrador {
            Some(ErrorSistema::NotAdministrator)
        } else if !self.existe_eleccion_spec(eleccion_id) {
            Some(ErrorSistema::ElectionNotFoundForAdmin)
        } else {
            self.eleccion(eleccion_id).error_procesar(aceptar_usuario)
        }
    }

    /// The administrator decides on the oldest enrollment request of an
    /// election, and only on it.
    pub fn procesar_usuarios_en_una_eleccion(&mut self, caller: AccountId, eleccion_id: u64, aceptar_usuario: bool) -> (r: Result<Exito, ErrorSistema>)
        ensures
            match old(self).error_procesar_en_eleccion(caller, eleccion_id, aceptar_usuario) {
                Some(e) => r == Err::<Exito, ErrorSistema>(e) && Self::sin_cambios(*old(self), *final(self)),
                None => r == Ok::<Exito, ErrorSistema>(
                    if aceptar_usuario { Exito::UserAccepted } else { Exito::UserRejected },
                ) && final(self).elecciones@.len() == old(self).elecciones@.len()
                    && Self::solo_cambian_elecciones(
                        *old(self),
                        *final(self),
                        old(self).elecciones@.update(eleccion_id - 1, final(self).eleccion(eleccion_id)),
                    )
                    && old(self).eleccion(eleccion_id).tras_procesar(final(self).eleccion(eleccion_id), aceptar_usuario),
            },
            old(self).bien_formado() ==> final(self).bien_formado(),
            votos_conservados(old(self).elecciones@, final(self).elecciones@),
    {
        self.procesar_usuarios_en_una_eleccion_privado(caller, eleccion_id, aceptar_usuario)
    }

    pub fn procesar_usuarios_en_una_eleccion_privado(&mut self, caller: AccountId, eleccion_id: u64, aceptar_usuario: bool) -> (r: Result<Exito, ErrorSistema>)
        ensures
            match old(self).error_procesar_en_eleccion(caller, eleccion_id, aceptar_usuario) {
                Some(e) => r == Err::<Exito, ErrorSistema>(e) && Self::sin_cambios(*old(self), *final(self)),
                None => r == Ok::<Exito, ErrorSistema>(
                    if aceptar_usuario { Exito::UserAccepted } else { Exito::UserRejected },
                ) && final(self).elecciones@.len() == old(self).elecciones@.len()
                    && Self::solo_cambian_elecciones(
                        *old(self),
                        *final(self),
                        old(self).elecciones@.update(eleccion_id - 1, final(self).eleccion(eleccion_id)),
                    )
                    && old(self).eleccion(eleccion_id).tras_procesar(final(self).eleccion(eleccion_id), aceptar_usuario),
            },
            old(self).bien_formado() ==> final(self).bien_formado(),
            votos_conservados(old(self).elecciones@, final(self).elecciones@),
    {
        if !self.es_administrador(caller) {
            return Err(ErrorSistema::NotAdministrator);
        }
        if !self.existe_eleccion(eleccion_id) {
            return Err(ErrorSistema::ElectionNotFoundForAdmin);
        }
        let idx = (eleccion_id - 1) as usize;
        let ghost antes = *self;
        let ghost e0 = antes.elecciones@[idx as int];
        let r = self.elecciones[idx].procesar_siguiente_usuario_pendiente(aceptar_usuario);
        proof {
            let e = self.elecciones@[idx as int];
            assert(self.elecciones@ =~= antes.elecciones@.update(idx as int, e));
            if r is Err {
                assert(self.elecciones@ =~= antes.elecciones@);
            } else {
                assert(votantes_conservados(e0, e));
            }
            Self::lema_conservar_al_reemplazar(antes.elecciones@, idx as int, e);
            if antes.bien_formado() {
                assert(e0.id == idx + 1);
                assert(antes.miembros_registrados(e0));
                if r is Ok {
                    assert(antes.es_registrado(e0.usuarios_pendientes@[0].0));
                    assert forall|k: int| 0 <= k < e.candidatos@.len() implies antes.es_registrado(
                        #[trigger] e.candidatos@[k].id,
                    ) by {
                        if k < e0.candidatos@.len() {
                            assert(e.candidatos@[k] == e0.candidatos@[k]);
                        }
                    }
                    assert forall|k: int| 0 <= k < e.votantes@.len() implies antes.es_registrado(
                        #[trigger] e.votantes@[k].id,
                    ) by {
                        if k < e0.votantes@.len() {
                            assert(e.votantes@[k] == e0.votantes@[k]);
                        }
                    }
                    assert forall|k: int| 0 <= k < e.usuarios_pendientes@.len() implies antes.es_registrado(
                        #[trigger] e.usuarios_pendientes@[k].0,
                    ) by {
                        assert(e.usuarios_pendientes@[k] == e0.usuarios_pendientes@[k + 1]);
                    }
                }
                Self::lema_reemplazar_eleccion(antes, *self, idx as int, e);
            }
        }
        r
    }

    /// The administrator reads the oldest enrollment request of an election:
    /// the requester's identity in hexadecimal and the role it asks for.
    pub fn obtener_siguiente_usuario_pendiente_en_una_eleccion(&self, caller: AccountId, eleccion_id: u64) -> (r: Result<String, ErrorSistema>)
        ensures
            caller != self.administrador ==> r == Err::<String, ErrorSistema>(ErrorSistema::NotAdministrator),
            caller == self.administrador && !self.existe_eleccion_spec(eleccion_id) ==> r == Err::<String, ErrorSistema>(
                ErrorSistema::ElectionNotFoundForAdmin,
            ),
            caller == self.administrador && self.existe_eleccion_spec(eleccion_id)
                && self.eleccion(eleccion_id).usuarios_pendientes@.len() == 0 ==> r == Err::<String, ErrorSistema>(
                ErrorSistema::NoPendingUsers,
            ),
            caller == self.administrador && self.existe_eleccion_spec(eleccion_id)
                && self.eleccion(eleccion_id).usuarios_pendientes@.len() > 0 ==> r is Ok && r->Ok_0@ == solicitud(
                self.eleccion(eleccion_id).usuarios_pendientes@[0],
            ),
    {
        self.obtener_siguiente_usuario_pendiente_en_una_eleccion_privado(caller, eleccion_id)
    }

    pub fn obtener_siguiente_usuario_pendiente_en_una_eleccion_privado(&self, caller: AccountId, eleccion_id: u64) -> (r: Result<String, ErrorSistema>)
        ensures
            caller != self.administrador ==> r == Err::<String, ErrorSistema>(ErrorSistema::NotAdministrator),
            caller == self.administrador && !self.existe_eleccion_spec(eleccion_id) ==> r == Err::<String, ErrorSistema>(
                ErrorSistema::ElectionNotFoundForAdmin,
            ),
            caller == self.administrador && self.existe_eleccion_spec(eleccion_id)
                && self.eleccion(eleccion_id).usuarios_pendientes@.len() == 0 ==> r == Err::<String, ErrorSistema>(
                ErrorSistema::NoPendingUsers,
            ),
            caller == self.administrador && self.existe_eleccion_spec(eleccion_id)
                && self.eleccion(eleccion_id).usuarios_pendientes@.len() > 0 ==> r is Ok && r->Ok_0@ == solicitud(
                self.eleccion(eleccion_id).usuarios_pendientes@[0],
            ),
    {
        if !self.es_administrador(caller) {
            return Err(ErrorSistema::NotAdministrator);
        }
        let eleccion = match self.obtener_ref_eleccion_por_id(eleccion_id) {
            Some(e) => e,
            None => return Err(ErrorSistema::ElectionNotFoundForAdmin),
        };
        if eleccion.usuarios_pendientes.len() == 0 {
            return Err(ErrorSistema::NoPendingUsers);
        }
        let (id, tipo) = eleccion.usuarios_pendientes[0];
        let mut s = "Usuario: ".to_string();
        let h = codificar_hex(&id.bytes);
        s.append(h.as_str());
        match tipo {
            TIPO_DE_USUARIO::VOTANTE => s.append("\nEl usuario quiere ser un VOTANTE"),
            TIPO_DE_USUARIO::CANDIDATO => s.append("\nEl usuario quiere ser un CANDIDATO"),
        }
        Ok(s)
    }

    /// The error with which `caller` fails to vote for candidate number
    /// `candidato_id` of election `eleccion_id` at time `ahora`, if it fails.
    pub open spec fn error_votar(&self, caller: AccountId, ahora: u64, eleccion_id: u64, candidato_id: u32) -> Option<ErrorSistema> {
        if !self.es_registrado(caller) {
            Some(ErrorSistema::NotRegistered)
        } else if !self.existe_eleccion_spec(eleccion_id) {
            Some(ErrorSistema::ElectionNotFound)
        } else if !self.eleccion(eleccion_id).votacion_iniciada && ahora < self.eleccion(eleccion_id).fecha_inicio {
            Some(ErrorSistema::TooEarly)
        } else if ahora > self.eleccion(eleccion_id).fecha_final {
            Some(ErrorSistema::VotingEnded)
        } else {
            self.eleccion(eleccion_id).error_voto(caller, candidato_id)
        }
    }

    /// An accepted user votes within the election's window. The first vote
    /// cast once the window has opened starts the voting if the
    /// administrator has not; a failed vote changes nothing.
    pub fn votar_a_candidato(&mut self, caller: AccountId, ahora: u64, eleccion_id: u64, candidato_id: u32) -> (r: Result<Exito, ErrorSistema>)
        ensures
            match old(self).error_votar(caller, ahora, eleccion_id, candidato_id) {
                Some(e) => r == Err::<Exito, ErrorSistema>(e) && Self::sin_cambios(*old(self), *final(self)),
                None => r == Ok::<Exito, ErrorSistema>(Exito::VoteCast)
                    && final(self).elecciones@.len() == old(self).elecciones@.len()
                    && Self::solo_cambian_elecciones(
                        *old(self),
                        *final(self),
                        old(self).elecciones@.update(eleccion_id - 1, final(self).eleccion(eleccion_id)),
                    )
                    && (Eleccion { votacion_iniciada: true, ..old(self).eleccion(eleccion_id) }).tras_voto(
                        final(self).eleccion(eleccion_id),
                        caller,
                        candidato_id,
                    ),
            },
            old(self).bien_formado() ==> final(self).bien_formado(),
            votos_conservados(old(self).elecciones@, final(self).elecciones@),
    {
        self.votar_a_candidato_privado(caller, ahora, eleccion_id, candidato_id)
    }

    pub fn votar_a_candidato_privado(&mut self, caller: AccountId, ahora: u64, eleccion_id: u64, candidato_id: u32) -> (r: Result<Exito, ErrorSistema>)
        ensures
            match old(self).error_votar(caller, ahora, eleccion_id, candidato_id) {
                Some(e) => r == Err::<Exito, ErrorSistema>(e) && Self::sin_cambios(*old(self), *final(self)),
                None => r == Ok::<Exito, ErrorSistema>(Exito::VoteCast)
                    && final(self).elecciones@.len() == old(self).elecciones@.len()
                    && Self::solo_cambian_elecciones(
                        *old(self),
                        *final(self),
                        old(self).elecciones@.update(eleccion_id - 1, final(self).eleccion(eleccion_id)),
                    )
                    && (Eleccion { votacion_iniciada: true, ..old(self).eleccion(eleccion_id) }).tras_voto(
                        final(self).eleccion(eleccion_id),
                        caller,
                        candidato_id,
                    ),
            },
            old(self).bien_formado() ==> final(self).bien_formado(),
            votos_conservados(old(self).elecciones@, final(self).elecciones@),
    {
        if !self.es_usuario_registrado(caller) {
            return Err(ErrorSistema::NotRegistered);
        }
        if !self.existe_eleccion(eleccion_id) {
            return Err(ErrorSistema::ElectionNotFound);
        }
        let idx = (eleccion_id - 1) as usize;
        if !self.elecciones[idx].votacion_iniciada && ahora < self.elecciones[idx].fecha_inicio {
            return Err(ErrorSistema::TooEarly);
        }
        if ahora > self.elecciones[idx].fecha_final {
            return Err(ErrorSistema::VotingEnded);
        }
        let ghost antes = *self;
        let ghost e0 = antes.elecciones@[idx as int];
        let r = self.elecciones[idx].votar_candidato(caller, candidato_id);
        let ghost medio = self.elecciones@[idx as int];
        if r.is_ok() {
            self.elecciones[idx].votacion_iniciada = true;
        }
        proof {
            let e = self.elecciones@[idx as int];
            assert(self.elecciones@ =~= antes.elecciones@.update(idx as int, e));
            if r is Err {
                assert(self.elecciones@ =~= antes.elecciones@);
            } else {
                assert(e.votantes == medio.votantes);
                assert(e.candidatos == medio.candidatos);
                crate::eleccion::lema_primer_votante(e0.votantes@, caller);
                let i = crate::eleccion::primer_votante(e0.votantes@, caller);
                assert forall|j: int| 0 <= j < e0.votantes@.len() implies {
                    &&& (#[trigger] e.votantes@[j]).id == e0.votantes@[j].id
                    &&& e0.votantes@[j].voto_emitido ==> e.votantes@[j].voto_emitido
                } by {
                    if j != i {
                        assert(e.votantes@[j] == e0.votantes@[j]);
                    }
                }
            }
            Self::lema_conservar_al_reemplazar(antes.elecciones@, idx as int, e);
            if antes.bien_formado() && r is Ok {
                assert(e0.id == idx + 1);
                assert(antes.miembros_registrados(e0));
                let e1 = Eleccion { votacion_iniciada: true, ..e0 };
                let i = crate::eleccion::primer_votante(e0.votantes@, caller);
                assert forall|k: int| 0 <= k < e.candidatos@.len() implies antes.es_registrado(
                    #[trigger] e.candidatos@[k].id,
                ) by {
                    assert(e.candidatos@[k].id == e0.candidatos@[k].id);
                }
                assert forall|k: int| 0 <= k < e.votantes@.len() implies antes.es_registrado(
                    #[trigger] e.votantes@[k].id,
                ) by {
                    assert(e.votantes@[k].id == e0.votantes@[k].id);
                }
                assert forall|k: int| 0 <= k < e.usuarios_pendientes@.len() implies antes.es_registrado(
                    #[trigger] e.usuarios_pendientes@[k].0,
                ) by {
                    assert(e.usuarios_pendientes@[k] == e0.usuarios_pendientes@[k]);
                }
                assert(e.bien_formada());
                Self::lema_reemplazar_eleccion(antes, *self, idx as int, e);
            }
        }
        r
    }

    /// The error with which the details of candidate number `candidato_id`
    /// of election `eleccion_id` cannot be given, if they cannot.
    pub open spec fn error_info_candidato(&self, eleccion_id: u64, candidato_id: u32) -> Option<ErrorSistema> {
        if !self.existe_eleccion_spec(eleccion_id) {
            Some(ErrorSistema::ElectionNotFoundForLookup)
        } else if !self.eleccion(eleccion_id).existe_candidato_spec(candidato_id) {
            Some(ErrorSistema::CandidateNotFoundForLookup)
        } else if !self.es_registrado(self.eleccion(eleccion_id).candidatos@[candidato_id - 1].id) {
            Some(ErrorSistema::CandidateNotFoundForLookup)
        } else {
            None
        }
    }

    /// Name, surname and national id of a candidate of an election. In a
    /// well-formed ledger every candidate is an accepted user, so the details
    /// are given whenever the election and the candidate exist.
    pub fn obtener_informacion_candidato_eleccion(&self, eleccion_id: u64, candidato_id: u32) -> (r: Result<String, ErrorSistema>)
        ensures
            match self.error_info_candidato(eleccion_id, candidato_id) {
                Some(e) => r == Err::<String, ErrorSistema>(e),
                None => r is Ok && exists|k: int|
                    es_primer_usuario(self.usuarios@, self.eleccion(eleccion_id).candidatos@[candidato_id - 1].id, k)
                        && r->Ok_0@ == ficha(self.usuarios@[k]),
            },
            self.bien_formado() && self.existe_eleccion_spec(eleccion_id)
                && self.eleccion(eleccion_id).existe_candidato_spec(candidato_id) ==> r is Ok,
    {
        self.obtener_informacion_candidato_eleccion_privado(eleccion_id, candidato_id)
    }

    pub fn obtener_informacion_candidato_eleccion_privado(&self, eleccion_id: u64, candidato_id: u32) -> (r: Result<String, ErrorSistema>)
        ensures
            match self.error_info_candidato(eleccion_id, candidato_id) {
                Some(e) => r == Err::<String, ErrorSistema>(e),
                None => r is Ok && exists|k: int|
                    es_primer_usuario(self.usuarios@, self.eleccion(eleccion_id).candidatos@[candidato_id - 1].id, k)
                        && r->Ok_0@ == ficha(self.usuarios@[k]),
            },
            self.bien_formado() && self.existe_eleccion_spec(eleccion_id)
                && self.eleccion(eleccion_id).existe_candidato_spec(candidato_id) ==> r is Ok,
    {
        let eleccion = match self.obtener_ref_eleccion_por_id(eleccion_id) {
            Some(e) => e,
            None => return Err(ErrorSistema::ElectionNotFoundForLookup),
        };
        let candidato = match eleccion.obtener_informacion_candidato(candidato_id) {
            Some(c) => c,
            None => return Err(ErrorSistema::CandidateNotFoundForLookup),
        };
        proof {
            if self.bien_formado() {
                let i = eleccion_id - 1;
                assert(self.miembros_registrados(self.elecciones@[i]));
                assert(self.es_registrado(self.elecciones@[i].candidatos@[candidato_id - 1].id));
            }
        }
        match self.obtener_usuario(candidato.id) {
            Some(u) => Ok(texto_ficha(u)),
            None => Err(ErrorSistema::CandidateNotFoundForLookup),
        }
    }

    /// Name and surname of a candidate of an election.
    pub fn obtener_informacion_candidato(&self, eleccion_id: u64, candidato_id: u32) -> (r: Result<String, ErrorSistema>)
        ensures
            match self.error_info_candidato(eleccion_id, candidato_id) {
                Some(e) => r == Err::<String, ErrorSistema>(e),
                None => r is Ok && exists|k: int|
                    es_primer_usuario(self.usuarios@, self.eleccion(eleccion_id).candidatos@[candidato_id - 1].id, k)
                        && r->Ok_0@ == nombre_completo(self.usuarios@[k]),
            },
    {
        let eleccion = match self.obtener_ref_eleccion_por_id(eleccion_id) {
            Some(e) => e,
            None => return Err(ErrorSistema::ElectionNotFoundForLookup),
        };
        let candidato = match eleccion.obtener_informacion_candidato(candidato_id) {
            Some(c) => c,
            None => return Err(ErrorSistema::CandidateNotFoundForLookup),
        };
        match self.obtener_usuario(candidato.id) {
            Some(u) => {
                let mut s = "Nombre: ".to_string();
                s.append(u.nombre.as_str());
                s.append("\nApellido: ");
                s.append(u.apellido.as_str());
                Ok(s)
            },
            None => Err(ErrorSistema::CandidateNotFoundForLookup),
        }
    }

    /// For the report generator only: name, surname and national id of the
    /// accepted user `user_id`, if there is one.
    pub fn obtener_informacion_usuario(&self, caller: AccountId, user_id: AccountId) -> (r: Option<(String, String, String)>)
        ensures
            r == self.info_usuario(caller, user_id),
    {
        self.obtener_informacion_usuario_privado(caller, user_id)
    }

    pub fn obtener_informacion_usuario_privado(&self, caller: AccountId, user_id: AccountId) -> (r: Option<(String, String, String)>)
        ensures
            r == self.info_usuario(caller, user_id),
    {
        if !self.es_generador_reportes(caller) {
            return None;
        }
        match self.obtener_usuario(user_id) {
            None => None,
            Some(u) => {
                proof {
                    lema_primer_usuario(self.usuarios@, user_id);
                }
                Some((u.nombre.clone(), u.apellido.clone(), u.dni.clone()))
            },
        }
    }

    /// The error with which the report generator's data on election
    /// `eleccion_id` is refused to `caller` at time `ahora`, if it is.
    pub open spec fn error_datos_reporte(&self, caller: AccountId, ahora: u64, eleccion_id: u64) -> Option<ErrorSistema> {
        if self.generador_reportes != Some(caller) {
            Some(ErrorSistema::NotReportGenerator)
        } else if !self.existe_eleccion_spec(eleccion_id) {
            Some(ErrorSistema::ElectionNotFoundForReport)
        } else if ahora <= self.eleccion(eleccion_id).fecha_final {
            Some(ErrorSistema::ElectionNotFinished)
        } else {
            None
        }
    }

    /// For the report generator, once an election has ended: each voter and
    /// whether the vote was cast, in the election's order.
    pub fn obtener_votantes_eleccion_por_id(&self, caller: AccountId, ahora: u64, eleccion_id: u64) -> (r: Result<Vec<(AccountId, bool)>, ErrorSistema>)
        ensures
            match self.error_datos_reporte(caller, ahora, eleccion_id) {
                Some(e) => r == Err::<Vec<(AccountId, bool)>, ErrorSistema>(e),
                None => r is Ok && r->Ok_0@ == self.eleccion(eleccion_id).votantes@.map_values(
                    |v: Votante| (v.id, v.voto_emitido),
                ),
            },
    {
        self.obtener_votantes_eleccion_por_id_privado(caller, ahora, eleccion_id)
    }

    pub fn obtener_votantes_eleccion_por_id_privado(&self, caller: AccountId, ahora: u64, eleccion_id: u64) -> (r: Result<Vec<(AccountId, bool)>, ErrorSistema>)
        ensures
            match self.error_datos_reporte(caller, ahora, eleccion_id) {
                Some(e) => r == Err::<Vec<(AccountId, bool)>, ErrorSistema>(e),
                None => r is Ok && r->Ok_0@ == self.eleccion(eleccion_id).votantes@.map_values(
                    |v: Votante| (v.id, v.voto_emitido),
                ),
            },
    {
        if !self.es_generador_reportes(caller) {
            return Err(ErrorSistema::NotReportGenerator);
        }
        let eleccion = match self.obtener_ref_eleccion_por_id(eleccion_id) {
            Some(e) => e,
            None => return Err(ErrorSistema::ElectionNotFoundForReport),
        };
        if ahora <= eleccion.fecha_final {
            return Err(ErrorSistema::ElectionNotFinished);
        }
        let mut v: Vec<(AccountId, bool)> = Vec::new();
        let mut i: usize = 0;
        while i < eleccion.votantes.len()
            invariant
                0 <= i <= eleccion.votantes@.len(),
                v@ == eleccion.votantes@.subrange(0, i as int).map_values(|x: Votante| (x.id, x.voto_emitido)),
            decreases eleccion.votantes@.len() - i,
        {
            let x = eleccion.votantes[i];
            v.push((x.id, x.voto_emitido));
            i = i + 1;
            assert(v@ =~= eleccion.votantes@.subrange(0, i as int).map_values(|x: Votante| (x.id, x.voto_emitido)));
        }
        assert(eleccion.votantes@.subrange(0, i as int) =~= eleccion.votantes@);
        Ok(v)
    }

    /// For the report generator, once an election has ended: each candidate
    /// and its tally, in enrollment order.
    pub fn obtener_candidatos_eleccion_por_id(&self, caller: AccountId, ahora: u64, eleccion_id: u64) -> (r: Result<Vec<(AccountId, u32)>, ErrorSistema>)
        ensures
            match self.error_datos_reporte(caller, ahora, eleccion_id) {
                Some(e) => r == Err::<Vec<(AccountId, u32)>, ErrorSistema>(e),
                None => r is Ok && r->Ok_0@ == self.eleccion(eleccion_id).candidatos@.map_values(
                    |c: CandidatoConteo| (c.id, c.votos_totales),
                ),
            },
    {
        self.obtener_candidatos_eleccion_por_id_privado(caller, ahora, eleccion_id)
    }

    pub fn obtener_candidatos_eleccion_por_id_privado(&self, caller: AccountId, ahora: u64, eleccion_id: u64) -> (r: Result<Vec<(AccountId, u32)>, ErrorSistema>)
        ensures
            match self.error_datos_reporte(caller, ahora, eleccion_id) {
                Some(e) => r == Err::<Vec<(AccountId, u32)>, ErrorSistema>(e),
                None => r is Ok && r->Ok_0@ == self.eleccion(eleccion_id).candidatos@.map_values(
                    |c: CandidatoConteo| (c.id, c.votos_totales),
                ),
            },
    {
        if !self.es_generador_reportes(caller) {
            return Err(ErrorSistema::NotReportGenerator);
        }
        let eleccion = match self.obtener_ref_eleccion_por_id(eleccion_id) {
            Some(e) => e,
            None => return Err(ErrorSistema::ElectionNotFoundForReport),
        };
        if ahora <= eleccion.fecha_final {
            return Err(ErrorSistema::ElectionNotFinished);
        }
        let mut v: Vec<(AccountId, u32)> = Vec::new();
        let mut i: usize = 0;
        while i < eleccion.candidatos.len()
            invariant
                0 <= i <= eleccion.candidatos@.len(),
                v@ == eleccion.candidatos@.subrange(0, i as int).map_values(
                    |c: CandidatoConteo| (c.id, c.votos_totales),
                ),
            decreases eleccion.candidatos@.len() - i,
        {
            let c = eleccion.candidatos[i];
            v.push((c.id, c.votos_totales));
            i = i + 1;
            assert(v@ =~= eleccion.candidatos@.subrange(0, i as int).map_values(
                |c: CandidatoConteo| (c.id, c.votos_totales),
            ));
        }
        assert(eleccion.candidatos@.subrange(0, i as int) =~= eleccion.candidatos@);
        Ok(v)
    }

    /// The results of an election once `ahora` is past its end: computed the
    /// first time and cached in the election, the cached ones afterwards.
    pub fn obtener_resultados(&mut self, ahora: u64, eleccion_id: u64) -> (r: Result<Resultados, ErrorSistema>)
        ensures
            !old(self).existe_eleccion_spec(eleccion_id) ==> r == Err::<Resultados, ErrorSistema>(
                ErrorSistema::ElectionNotFoundForResults,
            ) && Self::sin_cambios(*old(self), *final(self)),
            old(self).existe_eleccion_spec(eleccion_id) && ahora <= old(self).eleccion(eleccion_id).fecha_final
                ==> r == Err::<Resultados, ErrorSistema>(ErrorSistema::NotYetFinished) && Self::sin_cambios(
                *old(self),
                *final(self),
            ),
            old(self).existe_eleccion_spec(eleccion_id) && ahora > old(self).eleccion(eleccion_id).fecha_final
                ==> Self::tras_resultados(*old(self), *final(self), eleccion_id, r),
            old(self).bien_formado() ==> final(self).bien_formado(),
            votos_conservados(old(self).elecciones@, final(self).elecciones@),
    {
        self.obtener_resultados_privado(ahora, eleccion_id)
    }

    /// `r` holds the results of election `eleccion_id` of `a`: the cached
    /// ones, or else the ones its state yields, which `b` then caches; `b`
    /// is `a` otherwise.
    pub open spec fn tras_resultados(a: TrabajoFinal, b: TrabajoFinal, eleccion_id: u64, r: Result<Resultados, ErrorSistema>) -> bool {
        let e = a.eleccion(eleccion_id);
        let n = b.eleccion(eleccion_id);
        &&& r is Ok
        &&& b.elecciones@.len() == a.elecciones@.len()
        &&& Self::solo_cambian_elecciones(a, b, a.elecciones@.update(eleccion_id - 1, n))
        &&& match e.resultados {
            Some(c) => r->Ok_0@ == c@ && n == e,
            None => {
                &&& r->Ok_0@ == e.resultados_calculados()
                &&& n.resultados is Some
                &&& n.resultados->Some_0@ == e.resultados_calculados()
                &&& n.id == e.id
                &&& n.candidatos == e.candidatos
                &&& n.votantes == e.votantes
                &&& n.usuarios_rechazados == e.usuarios_rechazados
                &&& n.usuarios_pendientes == e.usuarios_pendientes
                &&& n.votacion_iniciada == e.votacion_iniciada
                &&& n.fecha_inicio == e.fecha_inicio
                &&& n.fecha_final == e.fecha_final
            },
        }
    }

    pub fn obtener_resultados_privado(&mut self, ahora: u64, eleccion_id: u64) -> (r: Result<Resultados, ErrorSistema>)
        ensures
            !old(self).existe_eleccion_spec(eleccion_id) ==> r == Err::<Resultados, ErrorSistema>(
                ErrorSistema::ElectionNotFoundForResults,
            ) && Self::sin_cambios(*old(self), *final(self)),
            old(self).existe_eleccion_spec(eleccion_id) && ahora <= old(self).eleccion(eleccion_id).fecha_final
                ==> r == Err::<Resultados, ErrorSistema>(ErrorSistema::NotYetFinished) && Self::sin_cambios(
                *old(self),
                *final(self),
            ),
            old(self).existe_eleccion_spec(eleccion_id) && ahora > old(self).eleccion(eleccion_id).fecha_final
                ==> Self::tras_resultados(*old(self), *final(self), eleccion_id, r),
            old(self).bien_formado() ==> final(self).bien_formado(),
            votos_conservados(old(self).elecciones@, final(self).elecciones@),
    {
        if !self.existe_eleccion(eleccion_id) {
            proof {
                self.lema_votos_conservados_reflexivo();
            }
            return Err(ErrorSistema::ElectionNotFoundForResults);
        }
        let idx = (eleccion_id - 1) as usize;
        let ghost antes = *self;
        let ghost e0 = antes.elecciones@[idx as int];
        let r = self.elecciones[idx].obtener_resultados_votacion(ahora);
        proof {
            let e = self.elecciones@[idx as int];
            assert(self.elecciones@ =~= antes.elecciones@.update(idx as int, e));
            if r is None || e0.resultados is Some {
                assert(self.elecciones@ =~= antes.elecciones@);
            }
            assert(votantes_conservados(e0, e));
            Self::lema_conservar_al_reemplazar(antes.elecciones@, idx as int, e);
            if antes.bien_formado() {
                assert(e0.id == idx + 1);
                assert(antes.miembros_registrados(e0));
                assert(e.candidatos@ == e0.candidatos@);
                assert(e.votantes@ == e0.votantes@);
                assert(e.usuarios_pendientes@ == e0.usuarios_pendientes@);
                Self::lema_reemplazar_eleccion(antes, *self, idx as int, e);
            }
        }
        match r {
            None => Err(ErrorSistema::NotYetFinished),
            Some(res) => Ok(res),
        }
    }
}

} // verus!
