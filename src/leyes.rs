//! Properties that hold across the operations of the ledger.

use vstd::prelude::*;

use crate::eleccion::{contar_votos, ids_en_cola, sumar_conteos, Eleccion};
use crate::identidad::AccountId;
use crate::trabajo_final::{votantes_conservados, votos_conservados, TrabajoFinal};

verus! {

/// In a well-formed ledger, which every operation keeps well formed, each
/// election has exactly as many votes cast as its tallies add up to.
pub proof fn ley_votos_igual_suma(t: TrabajoFinal, i: int)
    requires
        t.bien_formado(),
        0 <= i < t.elecciones@.len(),
    ensures
        contar_votos(t.elecciones@[i].votantes@) == sumar_conteos(t.elecciones@[i].candidatos@),
{
}

/// A successful vote adds one to the votes cast and one to the sum of the
/// tallies.
pub proof fn ley_voto_suma_uno(e: Eleccion, nueva: Eleccion, votante: AccountId, candidato: u32)
    requires
        e.error_voto(votante, candidato) is None,
        e.tras_voto(nueva, votante, candidato),
    ensures
        contar_votos(nueva.votantes@) == contar_votos(e.votantes@) + 1,
        sumar_conteos(nueva.candidatos@) == sumar_conteos(e.candidatos@) + 1,
{
    let i = crate::eleccion::primer_votante(e.votantes@, votante);
    crate::eleccion::lema_primer_votante(e.votantes@, votante);
    let c = candidato - 1;
    crate::eleccion::lema_contar_actualizar(e.votantes@, i, crate::eleccion::Votante { id: votante, voto_emitido: true });
    crate::eleccion::lema_sumar_actualizar(e.candidatos@, c, nueva.candidatos@[c]);
}

/// In a well-formed ledger an identity is at most one of: waiting for
/// admission, accepted, rejected.
pub proof fn ley_exclusion_directorio(t: TrabajoFinal, x: AccountId)
    requires
        t.bien_formado(),
    ensures
        !(t.es_pendiente(x) && t.es_registrado(x)),
        !(t.es_pendiente(x) && t.es_rechazado(x)),
        !(t.es_registrado(x) && t.es_rechazado(x)),
{
}

/// In a well-formed ledger, an identity that waits in an election's
/// enrollment queue waits there once, and is not among that election's
/// rejected identities.
pub proof fn ley_exclusion_eleccion(t: TrabajoFinal, i: int, x: AccountId)
    requires
        t.bien_formado(),
        0 <= i < t.elecciones@.len(),
        ids_en_cola(t.elecciones@[i].usuarios_pendientes@).contains(x),
    ensures
        !t.elecciones@[i].usuarios_rechazados@.contains(x),
        forall|a: int, b: int|
            0 <= a < b < t.elecciones@[i].usuarios_pendientes@.len() ==> t.elecciones@[i].usuarios_pendientes@[a].0
                != t.elecciones@[i].usuarios_pendientes@[b].0,
{
    let p = ids_en_cola(t.elecciones@[i].usuarios_pendientes@);
    assert forall|a: int, b: int|
        0 <= a < b < t.elecciones@[i].usuarios_pendientes@.len() implies t.elecciones@[i].usuarios_pendientes@[a].0
        != t.elecciones@[i].usuarios_pendientes@[b].0 by {
        assert(p[a] == t.elecciones@[i].usuarios_pendientes@[a].0);
        assert(p[b] == t.elecciones@[i].usuarios_pendientes@[b].0);
    }
}

/// Every operation keeps the cast votes of the registry, so any sequence of
/// them does: a vote once cast stays cast.
pub proof fn ley_votos_no_se_pierden(a: Seq<Eleccion>, b: Seq<Eleccion>, c: Seq<Eleccion>)
    requires
        votos_conservados(a, b),
        votos_conservados(b, c),
    ensures
        votos_conservados(a, c),
{
    assert forall|i: int| 0 <= i < a.len() implies votantes_conservados(#[trigger] a[i], c[i]) by {
        assert(votantes_conservados(a[i], b[i]));
        assert(votantes_conservados(b[i], c[i]));
        assert forall|j: int| 0 <= j < a[i].votantes@.len() implies {
            &&& (#[trigger] c[i].votantes@[j]).id == a[i].votantes@[j].id
            &&& a[i].votantes@[j].voto_emitido ==> c[i].votantes@[j].voto_emitido
        } by {
            assert(b[i].votantes@[j].id == a[i].votantes@[j].id);
        }
    }
}

} // verus!
