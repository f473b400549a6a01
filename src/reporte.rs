//! The reporting facade: read-only reports over the ledger, which it reads
//! under its own identity, the ledger's designated report generator.

use vstd::prelude::*;

use crate::errores::ErrorSistema;
use crate::identidad::AccountId;
use crate::trabajo_final::TrabajoFinal;

verus! {

/// Candidate `a` of `d` comes before candidate `b` in the results: it has
/// more votes, or as many and enrolled earlier.
pub open spec fn antes(d: Seq<(AccountId, u32)>, a: int, b: int) -> bool {
    d[a].1 > d[b].1 || (d[a].1 == d[b].1 && a < b)
}

/// `p` lists positions of `d`, each below its length, ordered strictly by
/// `antes`; with as many as `d` has, it is the only such list.
pub open spec fn orden_de_resultados(d: Seq<(AccountId, u32)>, p: Seq<usize>) -> bool {
    &&& p.len() == d.len()
    &&& forall|k: int| 0 <= k < p.len() ==> (#[trigger] p[k]) < d.len()
    &&& forall|a: int, b: int| 0 <= a < b < p.len() ==> antes(d, #[trigger] p[a] as int, #[trigger] p[b] as int)
}

/// The positions of `d` in results order: by votes, descending; candidates
/// with as many votes keep their enrollment order.
pub fn orden_por_votos(d: &Vec<(AccountId, u32)>) -> (p: Vec<usize>)
    ensures
        orden_de_resultados(d@, p@),
{
    let mut p: Vec<usize> = Vec::new();
    let mut i: usize = 0;
    while i < d.len()
        invariant
            0 <= i <= d@.len(),
            p@.len() == i,
            forall|k: int| 0 <= k < p@.len() ==> (#[trigger] p@[k]) < i,
            forall|a: int, b: int| 0 <= a < b < p@.len() ==> antes(d@, #[trigger] p@[a] as int, #[trigger] p@[b] as int),
        decreases d@.len() - i,
    {
        let votos = d[i].1;
        let mut pos: usize = 0;
        while pos < p.len() && d[p[pos]].1 >= votos
            invariant
                0 <= pos <= p@.len(),
                p@.len() == i,
                i < d@.len(),
                votos == d@[i as int].1,
                forall|k: int| 0 <= k < p@.len() ==> (#[trigger] p@[k]) < i,
                forall|k: int| 0 <= k < pos ==> d@[#[trigger] p@[k] as int].1 >= votos,
            decreases p@.len() - pos,
        {
            pos = pos + 1;
        }
        let ghost viejo = p@;
        p.insert(pos, i);
        proof {
            assert forall|k: int| 0 <= k < p@.len() implies (#[trigger] p@[k]) < i + 1 by {
                if k < pos {
                    assert(p@[k] == viejo[k]);
                } else if k > pos {
                    assert(p@[k] == viejo[k - 1]);
                }
            }
            assert forall|a: int, b: int| 0 <= a < b < p@.len() implies antes(
                d@,
                #[trigger] p@[a] as int,
                #[trigger] p@[b] as int,
            ) by {
                if b < pos {
                    assert(p@[a] == viejo[a] && p@[b] == viejo[b]);
                } else if b == pos {
                    assert(p@[a] == viejo[a]);
                } else if a < pos {
                    assert(p@[a] == viejo[a] && p@[b] == viejo[b - 1]);
                } else if a == pos {
                    assert(p@[b] == viejo[b - 1]);
                    assert(d@[viejo[pos as int] as int].1 < votos);
                    if b - 1 > pos {
                        assert(antes(d@, viejo[pos as int] as int, viejo[b - 1] as int));
                    }
                } else {
                    assert(p@[a] == viejo[a - 1] && p@[b] == viejo[b - 1]);
                }
            }
        }
        i = i + 1;
    }
    p
}

/// How many entries of `d` record a cast vote.
pub open spec fn contar_emitidos(d: Seq<(AccountId, bool)>) -> int
    decreases d.len(),
{
    if d.len() == 0 {
        0
    } else {
        contar_emitidos(d.drop_last()) + if d.last().1 { 1int } else { 0int }
    }
}

/// The share of `votaron` in `total`, in percent, rounded down; zero when
/// there is nobody to count.
pub open spec fn porcentaje(votaron: int, total: int) -> int {
    if total == 0 {
        0
    } else {
        votaron * 100 / total
    }
}

/// The participation in a roll of voters: how many voted and the rounded
/// down percentage; the counts must fit in `u32`.
pub open spec fn participacion(d: Seq<(AccountId, bool)>) -> Result<(u32, u32), ErrorSistema> {
    if d.len() > u32::MAX {
        Err(ErrorSistema::CountOverflow)
    } else {
        Ok((contar_emitidos(d) as u32, porcentaje(contar_emitidos(d), d.len() as int) as u32))
    }
}

/// The participation in a roll of voters, each with whether the vote was
/// cast: how many voted, and which percentage of the roll that is, rounded
/// down (zero for an empty roll).
pub fn calcular_participacion(d: &Vec<(AccountId, bool)>) -> (r: Result<(u32, u32), ErrorSistema>)
    ensures
        r == participacion(d@),
{
    if d.len() > u32::MAX as usize {
        return Err(ErrorSistema::CountOverflow);
    }
    let mut votaron: u32 = 0;
    let mut i: usize = 0;
    while i < d.len()
        invariant
            0 <= i <= d@.len(),
            d@.len() <= u32::MAX,
            votaron == contar_emitidos(d@.subrange(0, i as int)),
            votaron <= i,
        decreases d@.len() - i,
    {
        assert(d@.subrange(0, i + 1).drop_last() =~= d@.subrange(0, i as int));
        if d[i].1 {
            votaron = votaron + 1;
        }
        i = i + 1;
    }
    assert(d@.subrange(0, i as int) =~= d@);
    let total = d.len() as u64;
    if total == 0 {
        return Ok((votaron, 0));
    }
    let v = votaron as u64;
    assert(v * 100 <= total * 100) by (nonlinear_arith)
        requires
            v <= total,
    ;
    assert(total * 100 <= 100 * 4294967295) by (nonlinear_arith)
        requires
            total <= 4294967295,
    ;
    let por = v * 100 / total;
    assert((v as int) * 100 / (total as int) <= 100) by (nonlinear_arith)
        requires
            v <= total,
            total > 0,
    ;
    Ok((votaron, por as u32))
}

/// A row of a report: the identity and what the ledger tells the report
/// generator `caller` of it, or empty texts where it tells nothing.
pub open spec fn fila(t: TrabajoFinal, caller: AccountId, id: AccountId) -> (AccountId, Seq<char>, Seq<char>, Seq<char>) {
    match t.info_usuario(caller, id) {
        Some(x) => (id, x.0@, x.1@, x.2@),
        None => (id, Seq::empty(), Seq::empty(), Seq::empty()),
    }
}

/// The texts of a row of the voter roll.
pub open spec fn vista_fila(r: (AccountId, String, String, String)) -> (AccountId, Seq<char>, Seq<char>, Seq<char>) {
    (r.0, r.1@, r.2@, r.3@)
}

/// The texts of a row of the results report.
pub open spec fn vista_fila_votos(r: (AccountId, String, String, String, u32)) -> (
    AccountId,
    Seq<char>,
    Seq<char>,
    Seq<char>,
    u32,
) {
    (r.0, r.1@, r.2@, r.3@, r.4)
}

/// The row of the results report for candidate `c`.
pub open spec fn fila_votos(t: TrabajoFinal, caller: AccountId, c: (AccountId, u32)) -> (
    AccountId,
    Seq<char>,
    Seq<char>,
    Seq<char>,
    u32,
) {
    let f = fila(t, caller, c.0);
    (f.0, f.1, f.2, f.3, c.1)
}

/// The winner of an ordered results list: its head, unless the list is
/// empty or its first two entries have as many votes.
pub open spec fn hay_ganador(filas: Seq<(AccountId, String, String, String, u32)>) -> bool {
    filas.len() == 1 || (filas.len() >= 2 && filas[0].4 != filas[1].4)
}

/// The facade: it reads the ledger as the identity `cuenta`.
pub struct Reporte {
    pub cuenta: AccountId,
}

impl Reporte {
    /// A facade that reads the ledger as `cuenta`.
    pub fn new(cuenta: AccountId) -> (r: Reporte)
        ensures
            r.cuenta == cuenta,
    {
        Reporte { cuenta }
    }

    /// The row of `id`, joined with what the ledger tells this facade.
    fn unir(&self, trabajo_final: &TrabajoFinal, id: AccountId) -> (r: (AccountId, String, String, String))
        ensures
            vista_fila(r) == fila(*trabajo_final, self.cuenta, id),
    {
        match trabajo_final.obtener_informacion_usuario(self.cuenta, id) {
            Some(x) => (id, x.0, x.1, x.2),
            None => (id, String::new(), String::new(), String::new()),
        }
    }

    /// Each voter of an ended election with name, surname and national id,
    /// in the ledger's order. The ledger's refusal is passed on as it is.
    pub fn reporte_de_votantes_por_eleccion(&self, trabajo_final: &TrabajoFinal, ahora: u64, id_eleccion: u64) -> (r: Result<Vec<(AccountId, String, String, String)>, ErrorSistema>)
        ensures
            match trabajo_final.error_datos_reporte(self.cuenta, ahora, id_eleccion) {
                Some(e) => r == Err::<Vec<(AccountId, String, String, String)>, ErrorSistema>(e),
                None => r is Ok && r->Ok_0@.map_values(|x: (AccountId, String, String, String)| vista_fila(x))
                    == trabajo_final.eleccion(id_eleccion).votantes@.map_values(
                    |v: crate::eleccion::Votante| fila(*trabajo_final, self.cuenta, v.id),
                ),
            },
    {
        self.reporte_de_votantes_por_eleccion_privado(trabajo_final, ahora, id_eleccion)
    }

    pub fn reporte_de_votantes_por_eleccion_privado(&self, trabajo_final: &TrabajoFinal, ahora: u64, id_eleccion: u64) -> (r: Result<Vec<(AccountId, String, String, String)>, ErrorSistema>)
        ensures
            match trabajo_final.error_datos_reporte(self.cuenta, ahora, id_eleccion) {
                Some(e) => r == Err::<Vec<(AccountId, String, String, String)>, ErrorSistema>(e),
                None => r is Ok && r->Ok_0@.map_values(|x: (AccountId, String, String, String)| vista_fila(x))
                    == trabajo_final.eleccion(id_eleccion).votantes@.map_values(
                    |v: crate::eleccion::Votante| fila(*trabajo_final, self.cuenta, v.id),
                ),
            },
    {
        let datos = match trabajo_final.obtener_votantes_eleccion_por_id(self.cuenta, ahora, id_eleccion) {
            Err(e) => return Err(e),
            Ok(d) => d,
        };
        let ghost votantes = trabajo_final.eleccion(id_eleccion).votantes@;
        let mut filas: Vec<(AccountId, String, String, String)> = Vec::new();
        let mut i: usize = 0;
        while i < datos.len()
            invariant
                0 <= i <= datos@.len(),
                datos@.len() == votantes.len(),
                forall|k: int| 0 <= k < datos@.len() ==> (#[trigger] datos@[k]).0 == votantes[k].id,
                filas@.len() == i,
                forall|k: int| 0 <= k < i ==> vista_fila(#[trigger] filas@[k]) == fila(*trabajo_final, self.cuenta, votantes[k].id),
            decreases datos@.len() - i,
        {
            let f = self.unir(trabajo_final, datos[i].0);
            filas.push(f);
            i = i + 1;
        }
        assert(filas@.map_values(|x: (AccountId, String, String, String)| vista_fila(x)) =~= votantes.map_values(
            |v: crate::eleccion::Votante| fila(*trabajo_final, self.cuenta, v.id),
        ));
        Ok(filas)
    }

    /// The participation in an ended election: votes cast and the share of
    /// the voters who cast them, in percent rounded down. The ledger's
    /// refusal is passed on as it is.
    pub fn reporte_de_participacion_por_eleccion(&self, trabajo_final: &TrabajoFinal, ahora: u64, id_eleccion: u64) -> (r: Result<(u32, u32), ErrorSistema>)
        ensures
            match trabajo_final.error_datos_reporte(self.cuenta, ahora, id_eleccion) {
                Some(e) => r == Err::<(u32, u32), ErrorSistema>(e),
                None => r == participacion(
                    trabajo_final.eleccion(id_eleccion).votantes@.map_values(
                        |v: crate::eleccion::Votante| (v.id, v.voto_emitido),
                    ),
                ),
            },
    {
        self.reporte_de_participacion_por_eleccion_privado(trabajo_final, ahora, id_eleccion)
    }

    pub fn reporte_de_participacion_por_eleccion_privado(&self, trabajo_final: &TrabajoFinal, ahora: u64, id_eleccion: u64) -> (r: Result<(u32, u32), ErrorSistema>)
        ensures
            match trabajo_final.error_datos_reporte(self.cuenta, ahora, id_eleccion) {
                Some(e) => r == Err::<(u32, u32), ErrorSistema>(e),
                None => r == participacion(
                    trabajo_final.eleccion(id_eleccion).votantes@.map_values(
                        |v: crate::eleccion::Votante| (v.id, v.voto_emitido),
                    ),
                ),
            },
    {
        let datos = match trabajo_final.obtener_votantes_eleccion_por_id(self.cuenta, ahora, id_eleccion) {
            Err(e) => return Err(e),
            Ok(d) => d,
        };
        calcular_participacion(&datos)
    }

    /// The results of an ended election: every candidate with its details
    /// and votes, by votes descending (as many votes: enrollment order), and
    /// the winner, the first of them, unless the first two tie or there is
    /// no candidate. The ledger's refusal is passed on as it is.
    pub fn reporte_de_resultado_por_eleccion(&self, trabajo_final: &TrabajoFinal, ahora: u64, id_eleccion: u64) -> (r: Result<
        (Option<(AccountId, String, String, String, u32)>, Vec<(AccountId, String, String, String, u32)>),
        ErrorSistema,
    >)
        ensures
            match trabajo_final.error_datos_reporte(self.cuenta, ahora, id_eleccion) {
                Some(e) => r is Err && r->Err_0 == e,
                None => r is Ok && self.resultado_correcto(trabajo_final, id_eleccion, r->Ok_0.0, r->Ok_0.1@),
            },
    {
        self.reporte_de_resultado_por_eleccion_privado(trabajo_final, ahora, id_eleccion)
    }

    /// `filas` lists the candidates of election `id_eleccion` in results
    /// order, joined with their details, and `ganador` is its head where
    /// there is a winner and nothing otherwise.
    pub open spec fn resultado_correcto(
        &self,
        t: &TrabajoFinal,
        id_eleccion: u64,
        ganador: Option<(AccountId, String, String, String, u32)>,
        filas: Seq<(AccountId, String, String, String, u32)>,
    ) -> bool {
        let d = t.eleccion(id_eleccion).candidatos@.map_values(
            |c: crate::eleccion::CandidatoConteo| (c.id, c.votos_totales),
        );
        &&& exists|p: Seq<usize>|
            orden_de_resultados(d, p) && filas.len() == p.len() && forall|k: int|
                0 <= k < p.len() ==> vista_fila_votos(#[trigger] filas[k]) == fila_votos(*t, self.cuenta, d[p[k] as int])
        &&& if hay_ganador(filas) {
            ganador is Some && vista_fila_votos(ganador->Some_0) == vista_fila_votos(filas[0])
        } else {
            ganador is None
        }
    }

    pub fn reporte_de_resultado_por_eleccion_privado(&self, trabajo_final: &TrabajoFinal, ahora: u64, id_eleccion: u64) -> (r: Result<
        (Option<(AccountId, String, String, String, u32)>, Vec<(AccountId, String, String, String, u32)>),
        ErrorSistema,
    >)
        ensures
            match trabajo_final.error_datos_reporte(self.cuenta, ahora, id_eleccion) {
                Some(e) => r is Err && r->Err_0 == e,
                None => r is Ok && self.resultado_correcto(trabajo_final, id_eleccion, r->Ok_0.0, r->Ok_0.1@),
            },
    {
        let datos = match trabajo_final.obtener_candidatos_eleccion_por_id(self.cuenta, ahora, id_eleccion) {
            Err(e) => return Err(e),
            Ok(d) => d,
        };
        let mut filas: Vec<(AccountId, String, String, String, u32)> = Vec::new();
        let mut k: usize = 0;
        while k < datos.len()
            invariant
                0 <= k <= datos@.len(),
                filas@.len() == k,
                forall|j: int|
                    0 <= j < k ==> vista_fila_votos(#[trigger] filas@[j]) == fila_votos(
                        *trabajo_final,
                        self.cuenta,
                        datos@[j],
                    ),
            decreases datos@.len() - k,
        {
            let c = datos[k];
            let f = self.unir(trabajo_final, c.0);
            filas.push((f.0, f.1, f.2, f.3, c.1));
            k = k + 1;
        }
        let (ganador, ordenadas) = clasificar(&filas);
        proof {
            let d = datos@;
            assert(votos_de_filas(filas@) =~= d);
            let p = choose|p: Seq<usize>|
                orden_de_resultados(votos_de_filas(filas@), p) && ordenadas@.len() == p.len() && forall|k: int|
                    0 <= k < p.len() ==> vista_fila_votos(#[trigger] ordenadas@[k]) == vista_fila_votos(filas@[p[k] as int]);
            assert forall|k: int| 0 <= k < p.len() implies vista_fila_votos(#[trigger] ordenadas@[k]) == fila_votos(
                *trabajo_final,
                self.cuenta,
                d[p[k] as int],
            ) by {
                assert(p[k] < d.len());
            }
        }
        Ok((ganador, ordenadas))
    }
}

/// The identity and votes of each row, in order.
pub open spec fn votos_de_filas(filas: Seq<(AccountId, String, String, String, u32)>) -> Seq<(AccountId, u32)> {
    filas.map_values(|f: (AccountId, String, String, String, u32)| (f.0, f.4))
}

/// Puts the rows of a results report in results order (by votes,
/// descending; as many votes: the given order) and picks the winner: the
/// first row, unless there is none or the first two have as many votes.
pub fn clasificar(filas: &Vec<(AccountId, String, String, String, u32)>) -> (r: (
    Option<(AccountId, String, String, String, u32)>,
    Vec<(AccountId, String, String, String, u32)>,
))
    ensures
        exists|p: Seq<usize>|
            orden_de_resultados(votos_de_filas(filas@), p) && r.1@.len() == p.len() && forall|k: int|
                0 <= k < p.len() ==> vista_fila_votos(#[trigger] r.1@[k]) == vista_fila_votos(filas@[p[k] as int]),
        if hay_ganador(r.1@) {
            r.0 is Some && vista_fila_votos(r.0->Some_0) == vista_fila_votos(r.1@[0])
        } else {
            r.0 is None
        },
{
    let mut votos: Vec<(AccountId, u32)> = Vec::new();
    let mut i: usize = 0;
    while i < filas.len()
        invariant
            0 <= i <= filas@.len(),
            votos@ == votos_de_filas(filas@.subrange(0, i as int)),
        decreases filas@.len() - i,
    {
        votos.push((filas[i].0, filas[i].4));
        i = i + 1;
        assert(votos@ =~= votos_de_filas(filas@.subrange(0, i as int)));
    }
    assert(filas@.subrange(0, i as int) =~= filas@);
    let orden = orden_por_votos(&votos);
    let mut ordenadas: Vec<(AccountId, String, String, String, u32)> = Vec::new();
    let mut k: usize = 0;
    while k < orden.len()
        invariant
            0 <= k <= orden@.len(),
            orden_de_resultados(votos@, orden@),
            votos@.len() == filas@.len(),
            ordenadas@.len() == k,
            forall|j: int|
                0 <= j < k ==> vista_fila_votos(#[trigger] ordenadas@[j]) == vista_fila_votos(filas@[orden@[j] as int]),
        decreases orden@.len() - k,
    {
        let f = &filas[orden[k]];
        ordenadas.push((f.0, f.1.clone(), f.2.clone(), f.3.clone(), f.4));
        k = k + 1;
    }
    let ganador = if ordenadas.len() == 1 || (ordenadas.len() >= 2 && ordenadas[0].4 != ordenadas[1].4) {
        let g = &ordenadas[0];
        Some((g.0, g.1.clone(), g.2.clone(), g.3.clone(), g.4))
    } else {
        None
    };
    (ganador, ordenadas)
}

} // verus!
