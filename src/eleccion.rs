//! One election: its enrollment queue, voters, candidates, tallies and the
//! cached results.

use vstd::prelude::*;

use crate::errores::{ErrorSistema, Exito};
use crate::identidad::AccountId;

verus! {

/// The role a user asks for when enrolling in an election.
#[allow(non_camel_case_types)]
#[derive(Clone, Copy, Debug, PartialEq, Eq, Structural)]
pub enum TIPO_DE_USUARIO {
    VOTANTE,
    CANDIDATO,
}

/// A voter of one election and whether the vote was cast.
#[derive(Clone, Copy, Debug, PartialEq)]
pub struct Votante {
    pub id: AccountId,
    pub voto_emitido: bool,
}

/// A candidate of one election: its dense number and its tally.
#[derive(Clone, Copy, Debug, PartialEq)]
pub struct CandidatoConteo {
    pub id: AccountId,
    pub candidato_id: u32,
    pub votos_totales: u32,
}

/// The snapshot of an election computed once it has ended.
#[derive(Clone, Debug, PartialEq)]
pub struct Resultados {
    /// Every voter, whether or not the vote was cast.
    pub votos_totales: u64,
    /// The voters who cast their vote.
    pub votos_realizados: u64,
    /// Each candidate and its tally, in enrollment order.
    pub votos_candidatos: Vec<(AccountId, u64)>,
}

#[derive(Debug, PartialEq)]
pub struct Eleccion {
    pub id: u64,
    pub candidatos: Vec<CandidatoConteo>,
    pub votantes: Vec<Votante>,
    pub usuarios_rechazados: Vec<AccountId>,
    pub usuarios_pendientes: Vec<(AccountId, TIPO_DE_USUARIO)>,
    pub votacion_iniciada: bool,
    pub fecha_inicio: u64,
    pub fecha_final: u64,
    pub resultados: Option<Resultados>,
}

/// How many voters in `v` have cast their vote.
pub open spec fn contar_votos(v: Seq<Votante>) -> int
    decreases v.len(),
{
    if v.len() == 0 {
        0
    } else {
        contar_votos(v.drop_last()) + if v.last().voto_emitido { 1int } else { 0int }
    }
}

/// The sum of the tallies in `c`.
pub open spec fn sumar_conteos(c: Seq<CandidatoConteo>) -> int
    decreases c.len(),
{
    if c.len() == 0 {
        0
    } else {
        sumar_conteos(c.drop_last()) + c.last().votos_totales
    }
}

/// The identities of an enrollment queue, in queue order.
pub open spec fn ids_en_cola(p: Seq<(AccountId, TIPO_DE_USUARIO)>) -> Seq<AccountId> {
    p.map_values(|e: (AccountId, TIPO_DE_USUARIO)| e.0)
}

/// `i` is the first position of `v` that holds a voter with identity `id`.
pub open spec fn es_primer_votante(v: Seq<Votante>, id: AccountId, i: int) -> bool {
    &&& 0 <= i < v.len()
    &&& v[i].id == id
    &&& forall|j: int| 0 <= j < i ==> v[j].id != id
}

/// Some voter of `v` has identity `id`.
pub open spec fn hay_votante(v: Seq<Votante>, id: AccountId) -> bool {
    exists|i: int| 0 <= i < v.len() && v[i].id == id
}

/// The first position of `v` that holds a voter with identity `id`.
pub open spec fn primer_votante(v: Seq<Votante>, id: AccountId) -> int {
    choose|i: int| es_primer_votante(v, id, i)
}

/// Where some voter of `v` has identity `id`, `primer_votante` is the first
/// such position.
pub proof fn lema_primer_votante(v: Seq<Votante>, id: AccountId)
    requires
        hay_votante(v, id),
    ensures
        es_primer_votante(v, id, primer_votante(v, id)),
    decreases v.len(),
{
    if hay_votante(v.drop_last(), id) {
        lema_primer_votante(v.drop_last(), id);
        let i = primer_votante(v.drop_last(), id);
        assert forall|j: int| 0 <= j <= i implies v[j] == v.drop_last()[j] by {}
        assert(es_primer_votante(v, id, i));
    } else {
        assert forall|j: int| 0 <= j < v.len() - 1 implies v[j].id != id by {
            assert(v.drop_last()[j] == v[j]);
        }
        assert(es_primer_votante(v, id, v.len() - 1));
    }
}

/// The elements of a sequence are pairwise distinct.
pub open spec fn sin_repetidos<T>(s: Seq<T>) -> bool {
    forall|i: int, j: int| 0 <= i < s.len() && 0 <= j < s.len() && i != j ==> s[i] != s[j]
}

/// The two sequences share no element.
pub open spec fn disjuntas<T>(a: Seq<T>, b: Seq<T>) -> bool {
    forall|x: T| a.contains(x) ==> !b.contains(x)
}

pub proof fn lema_sin_repetidos_agregar<T>(s: Seq<T>, x: T)
    requires
        sin_repetidos(s),
        !s.contains(x),
    ensures
        sin_repetidos(s.push(x)),
{
    assert forall|i: int, j: int|
        0 <= i < s.push(x).len() && 0 <= j < s.push(x).len() && i != j implies s.push(x)[i] != s.push(x)[j] by {
        if i == s.len() {
            assert(s.contains(s[j]));
        } else if j == s.len() {
            assert(s.contains(s[i]));
        }
    }
}

pub proof fn lema_sin_repetidos_quitar_primero<T>(s: Seq<T>)
    requires
        sin_repetidos(s),
        s.len() > 0,
    ensures
        sin_repetidos(s.drop_first()),
        !s.drop_first().contains(s[0]),
{
    assert forall|i: int, j: int|
        0 <= i < s.drop_first().len() && 0 <= j < s.drop_first().len() && i != j implies s.drop_first()[i]
        != s.drop_first()[j] by {
        assert(s.drop_first()[i] == s[i + 1]);
        assert(s.drop_first()[j] == s[j + 1]);
    }
    if s.drop_first().contains(s[0]) {
        let k = choose|k: int| 0 <= k < s.drop_first().len() && s.drop_first()[k] == s[0];
        assert(s[k + 1] == s[0]);
    }
}

pub proof fn lema_contiene_quitar_primero<T>(s: Seq<T>, x: T)
    requires
        s.len() > 0,
        s.drop_first().contains(x),
    ensures
        s.contains(x),
{
    let k = choose|k: int| 0 <= k < s.drop_first().len() && s.drop_first()[k] == x;
    assert(s[k + 1] == x);
}

pub proof fn lema_contiene_agregar<T>(s: Seq<T>, x: T, y: T)
    ensures
        s.push(x).contains(y) <==> (s.contains(y) || y == x),
{
    if s.push(x).contains(y) {
        let k = choose|k: int| 0 <= k < s.push(x).len() && s.push(x)[k] == y;
        if k < s.len() {
            assert(s[k] == y);
        }
    }
    if s.contains(y) {
        let k = choose|k: int| 0 <= k < s.len() && s[k] == y;
        assert(s.push(x)[k] == y);
    }
    if y == x {
        assert(s.push(x)[s.len() as int] == y);
    }
}

pub proof fn lema_contar_actualizar(v: Seq<Votante>, i: int, x: Votante)
    requires
        0 <= i < v.len(),
    ensures
        contar_votos(v.update(i, x)) == contar_votos(v) - (if v[i].voto_emitido { 1int } else { 0int })
            + (if x.voto_emitido { 1int } else { 0int }),
    decreases v.len(),
{
    if i == v.len() - 1 {
        assert(v.update(i, x).drop_last() =~= v.drop_last());
    } else {
        lema_contar_actualizar(v.drop_last(), i, x);
        assert(v.update(i, x).drop_last() =~= v.drop_last().update(i, x));
    }
}

pub proof fn lema_sumar_actualizar(c: Seq<CandidatoConteo>, i: int, x: CandidatoConteo)
    requires
        0 <= i < c.len(),
    ensures
        sumar_conteos(c.update(i, x)) == sumar_conteos(c) - c[i].votos_totales + x.votos_totales,
    decreases c.len(),
{
    if i == c.len() - 1 {
        assert(c.update(i, x).drop_last() =~= c.drop_last());
    } else {
        lema_sumar_actualizar(c.drop_last(), i, x);
        assert(c.update(i, x).drop_last() =~= c.drop_last().update(i, x));
    }
}

pub proof fn lema_contar_agregar(v: Seq<Votante>, x: Votante)
    ensures
        contar_votos(v.push(x)) == contar_votos(v) + (if x.voto_emitido { 1int } else { 0int }),
{
    assert(v.push(x).drop_last() =~= v);
}

pub proof fn lema_sumar_agregar(c: Seq<CandidatoConteo>, x: CandidatoConteo)
    ensures
        sumar_conteos(c.push(x)) == sumar_conteos(c) + x.votos_totales,
{
    assert(c.push(x).drop_last() =~= c);
}

impl View for Resultados {
    type V = (u64, u64, Seq<(AccountId, u64)>);

    open spec fn view(&self) -> (u64, u64, Seq<(AccountId, u64)>) {
        (self.votos_totales, self.votos_realizados, self.votos_candidatos@)
    }
}

impl Resultados {
    /// A copy of these results.
    pub fn copia(&self) -> (r: Resultados)
        ensures
            r@ == self@,
    {
        let mut v: Vec<(AccountId, u64)> = Vec::new();
        let mut i: usize = 0;
        while i < self.votos_candidatos.len()
            invariant
                0 <= i <= self.votos_candidatos@.len(),
                v@ == self.votos_candidatos@.subrange(0, i as int),
            decreases self.votos_candidatos@.len() - i,
        {
            v.push(self.votos_candidatos[i]);
            i = i + 1;
            assert(v@ =~= self.votos_candidatos@.subrange(0, i as int));
        }
        assert(v@ =~= self.votos_candidatos@);
        Resultados {
            votos_totales: self.votos_totales,
            votos_realizados: self.votos_realizados,
            votos_candidatos: v,
        }
    }
}

impl Eleccion {
    /// A fresh election with the given id and window, and nothing in it yet.
    pub open spec fn es_nueva(&self, id: u64, inicio: u64, fin: u64) -> bool {
        &&& self.id == id
        &&& self.candidatos@ == Seq::<CandidatoConteo>::empty()
        &&& self.votantes@ == Seq::<Votante>::empty()
        &&& self.usuarios_rechazados@ == Seq::<AccountId>::empty()
        &&& self.usuarios_pendientes@ == Seq::<(AccountId, TIPO_DE_USUARIO)>::empty()
        &&& !self.votacion_iniciada
        &&& self.fecha_inicio == inicio
        &&& self.fecha_final == fin
        &&& self.resultados is None
    }

    /// Candidates are numbered densely from one in the order of acceptance;
    /// the votes cast equal the sum of the tallies; the enrollment queue holds
    /// no identity twice and none that was rejected; nobody is rejected twice.
    pub open spec fn bien_formada(&self) -> bool {
        &&& forall|i: int|
            0 <= i < self.candidatos@.len() ==> #[trigger] self.candidatos@[i].candidato_id == i + 1
        &&& contar_votos(self.votantes@) == sumar_conteos(self.candidatos@)
        &&& sin_repetidos(ids_en_cola(self.usuarios_pendientes@))
        &&& sin_repetidos(self.usuarios_rechazados@)
        &&& disjuntas(ids_en_cola(self.usuarios_pendientes@), self.usuarios_rechazados@)
    }

    /// `n` is the number of one of the election's candidates.
    pub open spec fn existe_candidato_spec(&self, n: u32) -> bool {
        1 <= n && n <= self.candidatos@.len()
    }

    /// Whether `id` waits in the election's enrollment queue.
    pub fn contiene_usuario_pendiente(&self, id: AccountId) -> (r: bool)
        ensures
            r == ids_en_cola(self.usuarios_pendientes@).contains(id),
    {
        let mut i: usize = 0;
        while i < self.usuarios_pendientes.len()
            invariant
                0 <= i <= self.usuarios_pendientes@.len(),
                forall|k: int| 0 <= k < i ==> self.usuarios_pendientes@[k].0 != id,
            decreases self.usuarios_pendientes@.len() - i,
        {
            if self.usuarios_pendientes[i].0 == id {
                assert(ids_en_cola(self.usuarios_pendientes@)[i as int] == id);
                return true;
            }
            i = i + 1;
        }
        assert(!ids_en_cola(self.usuarios_pendientes@).contains(id)) by {
            if ids_en_cola(self.usuarios_pendientes@).contains(id) {
                let k = choose|k: int|
                    0 <= k < ids_en_cola(self.usuarios_pendientes@).len()
                        && ids_en_cola(self.usuarios_pendientes@)[k] == id;
                assert(self.usuarios_pendientes@[k].0 == id);
            }
        }
        false
    }

    /// Whether `candidato_id` is in the dense range `1..=number of candidates`.
    pub fn existe_candidato(&self, candidato_id: u32) -> (r: bool)
        ensures
            r == self.existe_candidato_spec(candidato_id),
    {
        candidato_id >= 1 && (candidato_id as usize) <= self.candidatos.len()
    }

    /// The candidate with the given number, if there is one.
    pub fn obtener_informacion_candidato(&self, candidato_id: u32) -> (r: Option<&CandidatoConteo>)
        ensures
            self.existe_candidato_spec(candidato_id) ==> r == Some(&self.candidatos@[candidato_id - 1]),
            !self.existe_candidato_spec(candidato_id) ==> r is None,
    {
        if !self.existe_candidato(candidato_id) {
            return None;
        }
        Some(&self.candidatos[(candidato_id - 1) as usize])
    }

    /// The results that the election's current state yields.
    pub open spec fn resultados_calculados(&self) -> (u64, u64, Seq<(AccountId, u64)>) {
        (
            self.votantes@.len() as u64,
            contar_votos(self.votantes@) as u64,
            self.candidatos@.map_values(|c: CandidatoConteo| (c.id, c.votos_totales as u64)),
        )
    }

    /// The error with which a vote by `votante_id` for candidate number
    /// `candidato_id` fails, if it fails.
    pub open spec fn error_voto(&self, votante_id: AccountId, candidato_id: u32) -> Option<ErrorSistema> {
        if !self.existe_candidato_spec(candidato_id) {
            Some(ErrorSistema::CandidateNotFound)
        } else if !hay_votante(self.votantes@, votante_id) {
            Some(ErrorSistema::NotAVoter)
        } else if self.votantes@[primer_votante(self.votantes@, votante_id)].voto_emitido {
            Some(ErrorSistema::AlreadyVoted)
        } else if self.candidatos@[candidato_id - 1].votos_totales == u32::MAX {
            Some(ErrorSistema::TallyOverflow)
        } else {
            None
        }
    }

    /// `nueva` is `self` after `votante_id` cast a vote for candidate number
    /// `candidato_id`: the voter's flag is set and that candidate's tally
    /// grows by one; nothing else changes.
    pub open spec fn tras_voto(&self, nueva: Eleccion, votante_id: AccountId, candidato_id: u32) -> bool {
        let i = primer_votante(self.votantes@, votante_id);
        let c = candidato_id - 1;
        &&& nueva.votantes@ == self.votantes@.update(i, Votante { id: votante_id, voto_emitido: true })
        &&& nueva.candidatos@ == self.candidatos@.update(
            c,
            CandidatoConteo {
                id: self.candidatos@[c].id,
                candidato_id: self.candidatos@[c].candidato_id,
                votos_totales: (self.candidatos@[c].votos_totales + 1) as u32,
            },
        )
        &&& nueva.id == self.id
        &&& nueva.usuarios_rechazados == self.usuarios_rechazados
        &&& nueva.usuarios_pendientes == self.usuarios_pendientes
        &&& nueva.votacion_iniciada == self.votacion_iniciada
        &&& nueva.fecha_inicio == self.fecha_inicio
        &&& nueva.fecha_final == self.fecha_final
        &&& nueva.resultados == self.resultados
    }

    /// Casts the vote of `votante_id` for candidate number `candidato_id`.
    /// A failed vote changes nothing: in particular a tally at its maximum
    /// leaves the voter's flag unset.
    pub fn votar_candidato(&mut self, votante_id: AccountId, candidato_id: u32) -> (r: Result<Exito, ErrorSistema>)
        ensures
            match old(self).error_voto(votante_id, candidato_id) {
                Some(e) => r == Err::<Exito, ErrorSistema>(e) && *final(self) == *old(self),
                None => r == Ok::<Exito, ErrorSistema>(Exito::VoteCast)
                    && old(self).tras_voto(*final(self), votante_id, candidato_id),
            },
            old(self).bien_formada() ==> final(self).bien_formada(),
    {
        if !self.existe_candidato(candidato_id) {
            return Err(ErrorSistema::CandidateNotFound);
        }
        let mut i: usize = 0;
        while i < self.votantes.len()
            invariant
                0 <= i <= self.votantes@.len(),
                forall|k: int| 0 <= k < i ==> self.votantes@[k].id != votante_id,
            ensures
                0 <= i <= self.votantes@.len(),
                forall|k: int| 0 <= k < i ==> self.votantes@[k].id != votante_id,
                i < self.votantes@.len() ==> self.votantes@[i as int].id == votante_id,
            decreases self.votantes@.len() - i,
        {
            if self.votantes[i].id == votante_id {
                break;
            }
            i = i + 1;
        }
        if i == self.votantes.len() {
            return Err(ErrorSistema::NotAVoter);
        }
        assert(es_primer_votante(self.votantes@, votante_id, i as int));
        assert(hay_votante(self.votantes@, votante_id));
        assert(primer_votante(self.votantes@, votante_id) == i as int);
        if self.votantes[i].voto_emitido {
            return Err(ErrorSistema::AlreadyVoted);
        }
        let c = (candidato_id - 1) as usize;
        let votos = self.candidatos[c].votos_totales;
        if votos == u32::MAX {
            return Err(ErrorSistema::TallyOverflow);
        }
        proof {
            lema_contar_actualizar(self.votantes@, i as int, Votante { id: votante_id, voto_emitido: true });
            lema_sumar_actualizar(
                self.candidatos@,
                c as int,
                CandidatoConteo {
                    id: self.candidatos@[c as int].id,
                    candidato_id: self.candidatos@[c as int].candidato_id,
                    votos_totales: (votos + 1) as u32,
                },
            );
        }
        self.votantes[i].voto_emitido = true;
        self.candidatos[c].votos_totales = votos + 1;
        assert(self.votantes@[i as int] == Votante { id: votante_id, voto_emitido: true });
        Ok(Exito::VoteCast)
    }

    /// The error with which processing the head of the enrollment queue
    /// fails, if it fails.
    pub open spec fn error_procesar(&self, aceptar_usuario: bool) -> Option<ErrorSistema> {
        if self.usuarios_pendientes@.len() == 0 {
            Some(ErrorSistema::NoPendingUsers)
        } else if aceptar_usuario && self.usuarios_pendientes@[0].1 == TIPO_DE_USUARIO::CANDIDATO
            && self.candidatos@.len() >= u32::MAX {
            Some(ErrorSistema::CandidateIdOverflow)
        } else {
            None
        }
    }

    /// `nueva` is `self` after the head of the enrollment queue, and only it,
    /// left the queue: accepted as a voter who has not voted, accepted as the
    /// next candidate with no votes, or rejected.
    pub open spec fn tras_procesar(&self, nueva: Eleccion, aceptar_usuario: bool) -> bool {
        let (u, tipo) = self.usuarios_pendientes@[0];
        &&& nueva.usuarios_pendientes@ == self.usuarios_pendientes@.drop_first()
        &&& nueva.votantes@ == if aceptar_usuario && tipo == TIPO_DE_USUARIO::VOTANTE {
            self.votantes@.push(Votante { id: u, voto_emitido: false })
        } else {
            self.votantes@
        }
        &&& nueva.candidatos@ == if aceptar_usuario && tipo == TIPO_DE_USUARIO::CANDIDATO {
            self.candidatos@.push(
                CandidatoConteo { id: u, candidato_id: (self.candidatos@.len() + 1) as u32, votos_totales: 0 },
            )
        } else {
            self.candidatos@
        }
        &&& nueva.usuarios_rechazados@ == if aceptar_usuario {
            self.usuarios_rechazados@
        } else {
            self.usuarios_rechazados@.push(u)
        }
        &&& nueva.id == self.id
        &&& nueva.votacion_iniciada == self.votacion_iniciada
        &&& nueva.fecha_inicio == self.fecha_inicio
        &&& nueva.fecha_final == self.fecha_final
        &&& nueva.resultados == self.resultados
    }

    /// Takes the oldest entry of the enrollment queue, and only it: on
    /// acceptance it becomes a voter or the next candidate, as it asked; on
    /// rejection its identity is recorded as rejected. When the next
    /// candidate number would overflow, the entry stays in the queue.
    pub fn procesar_siguiente_usuario_pendiente(&mut self, aceptar_usuario: bool) -> (r: Result<Exito, ErrorSistema>)
        ensures
            match old(self).error_procesar(aceptar_usuario) {
                Some(e) => r == Err::<Exito, ErrorSistema>(e) && *final(self) == *old(self),
                None => r == Ok::<Exito, ErrorSistema>(
                    if aceptar_usuario { Exito::UserAccepted } else { Exito::UserRejected },
                ) && old(self).tras_procesar(*final(self), aceptar_usuario),
            },
            old(self).bien_formada() ==> final(self).bien_formada(),
    {
        if self.usuarios_pendientes.len() == 0 {
            return Err(ErrorSistema::NoPendingUsers);
        }
        let tipo = self.usuarios_pendientes[0].1;
        if aceptar_usuario && tipo == TIPO_DE_USUARIO::CANDIDATO && self.candidatos.len() >= u32::MAX as usize {
            return Err(ErrorSistema::CandidateIdOverflow);
        }
        let ghost antes = *self;
        let (usuario, tipo) = self.usuarios_pendientes.remove(0);
        assert(self.usuarios_pendientes@ =~= antes.usuarios_pendientes@.drop_first());
        proof {
            let pa = ids_en_cola(antes.usuarios_pendientes@);
            let pn = ids_en_cola(self.usuarios_pendientes@);
            assert forall|k: int| 0 <= k < pn.len() implies pn[k] == pa[k + 1] by {}
            if antes.bien_formada() {
                assert forall|x: AccountId| pn.contains(x) implies pa.contains(x) by {
                    let k = choose|k: int| 0 <= k < pn.len() && pn[k] == x;
                    assert(pa[k + 1] == x);
                }
                assert(!pn.contains(usuario)) by {
                    if pn.contains(usuario) {
                        let k = choose|k: int| 0 <= k < pn.len() && pn[k] == usuario;
                        assert(pa[k + 1] == pa[0]);
                    }
                }
                assert(pa[0] == usuario);
                assert(!antes.usuarios_rechazados@.contains(usuario));
            }
        }
        if aceptar_usuario {
            match tipo {
                TIPO_DE_USUARIO::VOTANTE => {
                    proof {
                        lema_contar_agregar(self.votantes@, Votante { id: usuario, voto_emitido: false });
                    }
                    self.votantes.push(Votante { id: usuario, voto_emitido: false });
                },
                TIPO_DE_USUARIO::CANDIDATO => {
                    let candidato_id = (self.candidatos.len() + 1) as u32;
                    proof {
                        lema_sumar_agregar(
                            self.candidatos@,
                            CandidatoConteo { id: usuario, candidato_id, votos_totales: 0 },
                        );
                    }
                    self.candidatos.push(CandidatoConteo { id: usuario, candidato_id, votos_totales: 0 });
                },
            }
            Ok(Exito::UserAccepted)
        } else {
            self.usuarios_rechazados.push(usuario);
            proof {
                let r = self.usuarios_rechazados@;
                if antes.bien_formada() {
                    assert forall|x: AccountId|
                        ids_en_cola(self.usuarios_pendientes@).contains(x) implies !r.contains(x) by {
                        if r.contains(x) {
                            let k = choose|k: int| 0 <= k < r.len() && r[k] == x;
                            if k < r.len() - 1 {
                                assert(antes.usuarios_rechazados@.contains(x));
                            }
                        }
                    }
                }
            }
            Ok(Exito::UserRejected)
        }
    }

    /// The results of the election, once `ahora` is past its end: the cached
    /// ones if there are any, else the ones its state yields, which are then
    /// cached. Before that, nothing, and nothing changes.
    pub fn obtener_resultados_votacion(&mut self, ahora: u64) -> (r: Option<Resultados>)
        ensures
            ahora <= old(self).fecha_final ==> r is None && *final(self) == *old(self),
            ahora > old(self).fecha_final && old(self).resultados is Some ==> r is Some
                && r->Some_0@ == old(self).resultados->Some_0@ && *final(self) == *old(self),
            ahora > old(self).fecha_final && old(self).resultados is None ==> r is Some
                && r->Some_0@ == old(self).resultados_calculados()
                && final(self).resultados is Some
                && final(self).resultados->Some_0@ == old(self).resultados_calculados()
                && final(self).id == old(self).id
                && final(self).candidatos == old(self).candidatos
                && final(self).votantes == old(self).votantes
                && final(self).usuarios_rechazados == old(self).usuarios_rechazados
                && final(self).usuarios_pendientes == old(self).usuarios_pendientes
                && final(self).votacion_iniciada == old(self).votacion_iniciada
                && final(self).fecha_inicio == old(self).fecha_inicio
                && final(self).fecha_final == old(self).fecha_final,
    {
        if ahora <= self.fecha_final {
            return None;
        }
        match &self.resultados {
            Some(r) => {
                return Some(r.copia());
            },
            None => {},
        }
        let mut realizados: u64 = 0;
        let mut i: usize = 0;
        while i < self.votantes.len()
            invariant
                0 <= i <= self.votantes@.len(),
                realizados == contar_votos(self.votantes@.subrange(0, i as int)),
                realizados <= i,
            decreases self.votantes@.len() - i,
        {
            assert(self.votantes@.subrange(0, i + 1).drop_last() =~= self.votantes@.subrange(0, i as int));
            if self.votantes[i].voto_emitido {
                realizados = realizados + 1;
            }
            i = i + 1;
        }
        assert(self.votantes@.subrange(0, i as int) =~= self.votantes@);
        let mut votos: Vec<(AccountId, u64)> = Vec::new();
        let mut j: usize = 0;
        while j < self.candidatos.len()
            invariant
                0 <= j <= self.candidatos@.len(),
                votos@ == self.candidatos@.subrange(0, j as int).map_values(
                    |c: CandidatoConteo| (c.id, c.votos_totales as u64),
                ),
            decreases self.candidatos@.len() - j,
        {
            let c = self.candidatos[j];
            votos.push((c.id, c.votos_totales as u64));
            j = j + 1;
            assert(votos@ =~= self.candidatos@.subrange(0, j as int).map_values(
                |c: CandidatoConteo| (c.id, c.votos_totales as u64),
            ));
        }
        assert(self.candidatos@.subrange(0, j as int) =~= self.candidatos@);
        let calculados = Resultados {
            votos_totales: self.votantes.len() as u64,
            votos_realizados: realizados,
            votos_candidatos: votos,
        };
        let copia = calculados.copia();
        self.resultados = Some(calculados);
        Some(copia)
    }
}

} // verus!
