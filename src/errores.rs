//! Outcomes of the ledger's operations and their human-readable messages.

use vstd::prelude::*;

verus! {

/// Every way an operation of the ledger or of the reports can fail.
#[derive(Clone, Copy, Debug, PartialEq, Eq, Structural)]
pub enum ErrorSistema {
    /// The caller is not the administrator.
    NotAdministrator,
    /// The caller is not an accepted user.
    NotRegistered,
    /// The caller is not the designated report generator.
    NotReportGenerator,
    /// Registration is switched off.
    RegistrationClosed,
    /// The administrator tried to register as a user.
    CallerIsAdministrator,
    /// The caller's registration was rejected before.
    AlreadyRejected,
    /// The caller is already an accepted user.
    AlreadyRegistered,
    /// The caller is already waiting for admission.
    AlreadyPending,
    /// An admission or enrollment queue is empty.
    NoPendingUsers,
    /// Registration is already switched on.
    AlreadyActivated,
    /// Registration is already switched off.
    AlreadyDeactivated,
    /// The start date does not match `dd-mm-YYYY hh:mm`.
    BadStartDate,
    /// The end date does not match `dd-mm-YYYY hh:mm`.
    BadEndDate,
    /// The next election id does not fit its counter.
    ElectionIdOverflow,
    /// No election has the given id (voting, starting, enrolling).
    ElectionNotFound,
    /// No election has the given id (enrollment queue management).
    ElectionNotFoundForAdmin,
    /// No election has the given id (candidate lookup).
    ElectionNotFoundForLookup,
    /// No election has the given id (report data).
    ElectionNotFoundForReport,
    /// No election has the given id (results).
    ElectionNotFoundForResults,
    /// The caller already waits in the election's enrollment queue.
    AlreadyEnrolled,
    /// Voting has started, so enrollment is closed.
    VotingAlreadyStarted,
    /// The election is over, so enrollment is closed.
    ElectionEnded,
    /// The caller was rejected from this election before.
    PreviouslyRejected,
    /// Voting was already started.
    AlreadyStarted,
    /// The voting window has not opened yet.
    TooEarly,
    /// The voting window has closed.
    VotingEnded,
    /// No candidate has the given number (voting).
    CandidateNotFound,
    /// No candidate has the given number (lookup).
    CandidateNotFoundForLookup,
    /// The caller is not a voter of the election.
    NotAVoter,
    /// The caller has already voted in the election.
    AlreadyVoted,
    /// The candidate's tally is at its maximum.
    TallyOverflow,
    /// The next candidate number does not fit its counter.
    CandidateIdOverflow,
    /// The election has not finished, so its data is withheld.
    ElectionNotFinished,
    /// The election has not finished, so it has no results yet.
    NotYetFinished,
    /// A count does not fit the report's counter.
    CountOverflow,
}

/// What a successful state-changing operation reports.
#[derive(Clone, Copy, Debug, PartialEq, Eq, Structural)]
pub enum Exito {
    VoteCast,
    UserAccepted,
    UserRejected,
    RegistrationQueued,
    ElectionCreated(u64),
    VotingStarted,
    EnrollmentQueued,
    RegistrationActivated,
    RegistrationDeactivated,
    AdministratorTransferred,
    ReportGeneratorAssigned,
}

impl ErrorSistema {
    pub open spec fn texto(&self) -> Seq<char> {
        match *self {
            ErrorSistema::NotAdministrator => "No eres el administrador."@,
            ErrorSistema::NotRegistered => "No estás registrado en el sistema. Espera a que te acepten en el mismo o realiza la solicitud."@,
            ErrorSistema::NotReportGenerator => "No es el generador de reportes!"@,
            ErrorSistema::RegistrationClosed => "El registro todavía no está activado."@,
            ErrorSistema::CallerIsAdministrator => "Eres el administrador, no puedes registrarte."@,
            ErrorSistema::AlreadyRejected => "Tu solicitud de registro ya fue rechazada."@,
            ErrorSistema::AlreadyRegistered => "Ya estás registrado como usuario."@,
            ErrorSistema::AlreadyPending => "Ya estás en la cola de usuarios pendientes."@,
            ErrorSistema::NoPendingUsers => "No hay usuarios pendientes."@,
            ErrorSistema::AlreadyActivated => "El registro ya está activado."@,
            ErrorSistema::AlreadyDeactivated => "El registro ya está desactivado."@,
            ErrorSistema::BadStartDate => "Error en el formato de la fecha inicial. Formato: dd-mm-YYYY hh:mm"@,
            ErrorSistema::BadEndDate => "Error en el formato de la fecha final. Formato: dd-mm-YYYY hh:mm"@,
            ErrorSistema::ElectionIdOverflow => "Se produjo un overflow al intentar crear una elección."@,
            ErrorSistema::ElectionNotFound => "No existe una elección con ese id."@,
            ErrorSistema::ElectionNotFoundForAdmin => "Eleccion no encontrada"@,
            ErrorSistema::ElectionNotFoundForLookup => "Eleccion no encontrada."@,
            ErrorSistema::ElectionNotFoundForReport => "La eleccion enviada no existe!"@,
            ErrorSistema::ElectionNotFoundForResults => "No se encontró una elección con ese id."@,
            ErrorSistema::AlreadyEnrolled => "Ya está registrado en la elección."@,
            ErrorSistema::VotingAlreadyStarted => "La votación en la elección ya comenzó, no te puedes registrar."@,
            ErrorSistema::ElectionEnded => "La elección ya finalizó, no te puedes registrar."@,
            ErrorSistema::PreviouslyRejected => "Ya has sido rechazado no puedes ingresar a la eleccion"@,
            ErrorSistema::AlreadyStarted => "La votación ya inició."@,
            ErrorSistema::TooEarly => "Todavía no es la fecha para la votación."@,
            ErrorSistema::VotingEnded => "La votación ya finalizó."@,
            ErrorSistema::CandidateNotFound => "No existe un candidato con este id."@,
            ErrorSistema::CandidateNotFoundForLookup => "Candidato no encontrado."@,
            ErrorSistema::NotAVoter => "No estás registrado en la elección."@,
            ErrorSistema::AlreadyVoted => "No se realizó el voto porque ya votaste anteriormente."@,
            ErrorSistema::TallyOverflow => "Se produjo un overflow al intentar sumar el voto."@,
            ErrorSistema::CandidateIdOverflow => "Ocurrio un overflow al calcular la ID del candidato."@,
            ErrorSistema::ElectionNotFinished => "La elección no finalizó, no puedes obtener los datos."@,
            ErrorSistema::NotYetFinished => "Todavía no están los resultados de la elección publicados."@,
            ErrorSistema::CountOverflow => "Se produjo un overflow al contar los votantes."@,
        }
    }

    /// The message shown to the caller for this error.
    pub fn mensaje(&self) -> (r: String)
        ensures
            r@ == self.texto(),
    {
        let s: &str = match *self {
            ErrorSistema::NotAdministrator => "No eres el administrador.",
            ErrorSistema::NotRegistered => "No estás registrado en el sistema. Espera a que te acepten en el mismo o realiza la solicitud.",
            ErrorSistema::NotReportGenerator => "No es el generador de reportes!",
            ErrorSistema::RegistrationClosed => "El registro todavía no está activado.",
            ErrorSistema::CallerIsAdministrator => "Eres el administrador, no puedes registrarte.",
            ErrorSistema::AlreadyRejected => "Tu solicitud de registro ya fue rechazada.",
            ErrorSistema::AlreadyRegistered => "Ya estás registrado como usuario.",
            ErrorSistema::AlreadyPending => "Ya estás en la cola de usuarios pendientes.",
            ErrorSistema::NoPendingUsers => "No hay usuarios pendientes.",
            ErrorSistema::AlreadyActivated => "El registro ya está activado.",
            ErrorSistema::AlreadyDeactivated => "El registro ya está desactivado.",
            ErrorSistema::BadStartDate => "Error en el formato de la fecha inicial. Formato: dd-mm-YYYY hh:mm",
            ErrorSistema::BadEndDate => "Error en el formato de la fecha final. Formato: dd-mm-YYYY hh:mm",
            ErrorSistema::ElectionIdOverflow => "Se produjo un overflow al intentar crear una elección.",
            ErrorSistema::ElectionNotFound => "No existe una elección con ese id.",
            ErrorSistema::ElectionNotFoundForAdmin => "Eleccion no encontrada",
            ErrorSistema::ElectionNotFoundForLookup => "Eleccion no encontrada.",
            ErrorSistema::ElectionNotFoundForReport => "La eleccion enviada no existe!",
            ErrorSistema::ElectionNotFoundForResults => "No se encontró una elección con ese id.",
            ErrorSistema::AlreadyEnrolled => "Ya está registrado en la elección.",
            ErrorSistema::VotingAlreadyStarted => "La votación en la elección ya comenzó, no te puedes registrar.",
            ErrorSistema::ElectionEnded => "La elección ya finalizó, no te puedes registrar.",
            ErrorSistema::PreviouslyRejected => "Ya has sido rechazado no puedes ingresar a la eleccion",
            ErrorSistema::AlreadyStarted => "La votación ya inició.",
            ErrorSistema::TooEarly => "Todavía no es la fecha para la votación.",
            ErrorSistema::VotingEnded => "La votación ya finalizó.",
            ErrorSistema::CandidateNotFound => "No existe un candidato con este id.",
            ErrorSistema::CandidateNotFoundForLookup => "Candidato no encontrado.",
            ErrorSistema::NotAVoter => "No estás registrado en la elección.",
            ErrorSistema::AlreadyVoted => "No se realizó el voto porque ya votaste anteriormente.",
            ErrorSistema::TallyOverflow => "Se produjo un overflow al intentar sumar el voto.",
            ErrorSistema::CandidateIdOverflow => "Ocurrio un overflow al calcular la ID del candidato.",
            ErrorSistema::ElectionNotFinished => "La elección no finalizó, no puedes obtener los datos.",
            ErrorSistema::NotYetFinished => "Todavía no están los resultados de la elección publicados.",
            ErrorSistema::CountOverflow => "Se produjo un overflow al contar los votantes.",
        };
        s.to_string()
    }
}

/// The decimal digits of a natural number, without sign or leading zeros.
pub open spec fn decimal_de(n: nat) -> Seq<char>
    decreases n,
{
    if n < 10 {
        seq![(n + 48) as char]
    } else {
        decimal_de(n / 10).push(((n % 10) + 48) as char)
    }
}

/// Relies on the standard `Display` of `u64` (through `to_string`): its
/// decimal digits, without sign or leading zeros.
#[verifier::external_body]
fn texto_decimal(n: u64) -> (r: String)
    ensures
        r@ == decimal_de(n as nat),
{
    n.to_string()
}

impl Exito {
    pub open spec fn texto(&self) -> Seq<char> {
        match *self {
            Exito::VoteCast => "Voto emitido exitosamente."@,
            Exito::UserAccepted => "Usuario agregado exitosamente."@,
            Exito::UserRejected => "Usuario rechazado exitosamente."@,
            Exito::RegistrationQueued => "Registro exitoso. Se te añadió en la cola de usuarios pendientes."@,
            Exito::ElectionCreated(id) => "Eleccion creada exitosamente. Id de la elección: "@ + decimal_de(id as nat),
            Exito::VotingStarted => "Se inició la votación exitosamente."@,
            Exito::EnrollmentQueued => "Ingresó a la elección correctamente Pendiente de aprobacion del Administrador"@,
            Exito::RegistrationActivated => "Se activó el registro para los usuarios."@,
            Exito::RegistrationDeactivated => "Se desactivó el registro para los usuarios."@,
            Exito::AdministratorTransferred => "Se transfirió el rol de administrador correctamente."@,
            Exito::ReportGeneratorAssigned => "Se asigno el generador reportes correctamente."@,
        }
    }

    /// The message shown to the caller for this outcome.
    pub fn mensaje(&self) -> (r: String)
        ensures
            r@ == self.texto(),
    {
        let s: &str = match *self {
            Exito::VoteCast => "Voto emitido exitosamente.",
            Exito::UserAccepted => "Usuario agregado exitosamente.",
            Exito::UserRejected => "Usuario rechazado exitosamente.",
            Exito::RegistrationQueued => "Registro exitoso. Se te añadió en la cola de usuarios pendientes.",
            Exito::ElectionCreated(id) => {
                let mut m = "Eleccion creada exitosamente. Id de la elección: ".to_string();
                let d = texto_decimal(id);
                m.append(d.as_str());
                return m;
            },
            Exito::VotingStarted => "Se inició la votación exitosamente.",
            Exito::EnrollmentQueued => "Ingresó a la elección correctamente Pendiente de aprobacion del Administrador",
            Exito::RegistrationActivated => "Se activó el registro para los usuarios.",
            Exito::RegistrationDeactivated => "Se desactivó el registro para los usuarios.",
            Exito::AdministratorTransferred => "Se transfirió el rol de administrador correctamente.",
            Exito::ReportGeneratorAssigned => "Se asigno el generador reportes correctamente.",
        };
        s.to_string()
    }
}

/// The messages of an outcome, as text on both sides.
pub fn como_texto(r: Result<Exito, ErrorSistema>) -> (t: Result<String, String>)
    ensures
        r is Ok ==> t is Ok && t->Ok_0@ == r->Ok_0.texto(),
        r is Err ==> t is Err && t->Err_0@ == r->Err_0.texto(),
{
    match r {
        Ok(e) => Ok(e.mensaje()),
        Err(e) => Err(e.mensaje()),
    }
}

} // verus!
