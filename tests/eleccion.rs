use trabajo_final::eleccion::{CandidatoConteo, Eleccion, Resultados, Votante, TIPO_DE_USUARIO};
use trabajo_final::errores::{como_texto, ErrorSistema, Exito};
use trabajo_final::identidad::AccountId;

fn cuenta(b: u8) -> AccountId {
    AccountId::from([b; 32])
}

fn setup_eleccion() -> Eleccion {
    Eleccion {
        id: 1,
        candidatos: Vec::new(),
        votantes: Vec::new(),
        usuarios_rechazados: Vec::new(),
        usuarios_pendientes: Vec::new(),
        votacion_iniciada: false,
        fecha_inicio: 0,
        fecha_final: 0,
        resultados: None,
    }
}

#[test]
fn test_no_es_administrador() {
    let error = ErrorSistema::NotAdministrator;
    assert_eq!(error.mensaje(), "No eres el administrador.");
}

#[test]
fn test_usuario_no_registrado() {
    let error = ErrorSistema::NotRegistered;
    assert_eq!(
        error.mensaje(),
        "No estás registrado en el sistema. Espera a que te acepten en el mismo o realiza la solicitud."
    );
}

#[test]
fn test_error_usuario_no_registrado() {
    let error = ErrorSistema::NotRegistered;
    assert_eq!(
        error.mensaje(),
        "No estás registrado en el sistema. Espera a que te acepten en el mismo o realiza la solicitud."
    );
}

#[test]
fn test_contiene_usuario_pendiente() {
    let mut eleccion = setup_eleccion();
    let alice = cuenta(0x01);
    let bob = cuenta(0x02);
    eleccion.usuarios_pendientes.push((alice, TIPO_DE_USUARIO::VOTANTE));
    assert!(eleccion.contiene_usuario_pendiente(alice));
    assert!(!eleccion.contiene_usuario_pendiente(bob));
}

#[test]
fn test_existe_candidato() {
    let mut eleccion = setup_eleccion();
    eleccion.candidatos.push(CandidatoConteo { id: cuenta(0x01), candidato_id: 1, votos_totales: 0 });
    assert!(eleccion.existe_candidato(1));
    assert!(!eleccion.existe_candidato(2));
}

#[test]
fn test_votar_candidato() {
    let mut eleccion = setup_eleccion();
    let alice = cuenta(0x01);
    let bob = cuenta(0x02);
    eleccion.candidatos.push(CandidatoConteo { id: alice, candidato_id: 1, votos_totales: 0 });
    eleccion.votantes.push(Votante { id: bob, voto_emitido: false });
    let result = eleccion.votar_candidato(bob, 1);
    assert_eq!(como_texto(result), Ok(String::from("Voto emitido exitosamente.")));
    assert!(eleccion.votantes[0].voto_emitido);
    assert_eq!(eleccion.candidatos[0].votos_totales, 1);
}

#[test]
fn test_procesar_siguiente_usuario_pendiente() {
    let mut eleccion = setup_eleccion();
    eleccion.usuarios_pendientes.push((cuenta(0x01), TIPO_DE_USUARIO::VOTANTE));
    eleccion.usuarios_pendientes.push((cuenta(0x02), TIPO_DE_USUARIO::CANDIDATO));

    let result = eleccion.procesar_siguiente_usuario_pendiente(true);
    assert_eq!(como_texto(result), Ok(String::from("Usuario agregado exitosamente.")));
    assert_eq!(eleccion.votantes.len(), 1);
    assert_eq!(eleccion.candidatos.len(), 0);

    let result = eleccion.procesar_siguiente_usuario_pendiente(true);
    assert_eq!(como_texto(result), Ok(String::from("Usuario agregado exitosamente.")));
    assert_eq!(eleccion.votantes.len(), 1);
    assert_eq!(eleccion.candidatos.len(), 1);

    let result = eleccion.procesar_siguiente_usuario_pendiente(false);
    assert_eq!(como_texto(result), Err(String::from("No hay usuarios pendientes.")));
}

#[test]
fn test_procesar_siguiente_usuario_pendiente_eleccion() {
    let mut eleccion = setup_eleccion();
    eleccion.usuarios_pendientes.push((cuenta(0x01), TIPO_DE_USUARIO::VOTANTE));
    eleccion.usuarios_pendientes.push((cuenta(0x02), TIPO_DE_USUARIO::CANDIDATO));

    let result = eleccion.procesar_siguiente_usuario_pendiente(true);
    assert_eq!(como_texto(result), Ok(String::from("Usuario agregado exitosamente.")));
    assert_eq!(eleccion.votantes.len(), 1);
    assert_eq!(eleccion.candidatos.len(), 0);

    let result = eleccion.procesar_siguiente_usuario_pendiente(true);
    assert_eq!(como_texto(result), Ok(String::from("Usuario agregado exitosamente.")));
    assert_eq!(eleccion.votantes.len(), 1);
    assert_eq!(eleccion.candidatos.len(), 1);

    let result = eleccion.procesar_siguiente_usuario_pendiente(false);
    assert_eq!(como_texto(result), Err(String::from("No hay usuarios pendientes.")));
}

#[test]
fn test_obtener_informacion_candidato_eleccion() {
    let mut eleccion = setup_eleccion();
    let alice = cuenta(0x01);
    let bob = cuenta(0x02);
    eleccion.candidatos.push(CandidatoConteo { id: alice, candidato_id: 1, votos_totales: 0 });
    eleccion.candidatos.push(CandidatoConteo { id: bob, candidato_id: 2, votos_totales: 0 });

    let candidato_info = eleccion.obtener_informacion_candidato(1);
    assert!(candidato_info.is_some());
    assert_eq!(candidato_info.unwrap().id, alice);

    let candidato_info = eleccion.obtener_informacion_candidato(2);
    assert!(candidato_info.is_some());
    assert_eq!(candidato_info.unwrap().id, bob);

    let candidato_info = eleccion.obtener_informacion_candidato(3);
    assert!(candidato_info.is_none());
}

#[test]
fn lib_test_no_es_administrador() {
    let error = ErrorSistema::NotAdministrator;
    assert_eq!(error.mensaje(), "No eres el administrador.");
}

#[test]
fn lib_test_usuario_no_registrado() {
    let error = ErrorSistema::NotRegistered;
    assert_eq!(
        error.mensaje(),
        "No estás registrado en el sistema. Espera a que te acepten en el mismo o realiza la solicitud."
    );
}

#[test]
fn lib_test_contiene_usuario_pendiente() {
    let mut eleccion = setup_eleccion();
    let alice = cuenta(0x01);
    eleccion.usuarios_pendientes.push((alice, TIPO_DE_USUARIO::VOTANTE));
    assert!(eleccion.contiene_usuario_pendiente(alice));
    assert!(!eleccion.contiene_usuario_pendiente(cuenta(0x02)));
}

#[test]
fn lib_test_existe_candidato() {
    let mut eleccion = setup_eleccion();
    eleccion.candidatos.push(CandidatoConteo { id: cuenta(0x01), candidato_id: 1, votos_totales: 0 });
    assert!(eleccion.existe_candidato(1));
    assert!(!eleccion.existe_candidato(2));
}

#[test]
fn lib_test_votar_candidato() {
    let mut eleccion = setup_eleccion();
    let bob = cuenta(0x02);
    eleccion.candidatos.push(CandidatoConteo { id: cuenta(0x01), candidato_id: 1, votos_totales: 0 });
    eleccion.votantes.push(Votante { id: bob, voto_emitido: false });
    let result = eleccion.votar_candidato(bob, 1);
    assert_eq!(como_texto(result), Ok(String::from("Voto emitido exitosamente.")));
    assert!(eleccion.votantes[0].voto_emitido);
    assert_eq!(eleccion.candidatos[0].votos_totales, 1);
}

#[test]
fn lib_test_procesar_siguiente_usuario_pendiente() {
    let mut eleccion = setup_eleccion();
    eleccion.usuarios_pendientes.push((cuenta(0x01), TIPO_DE_USUARIO::VOTANTE));
    eleccion.usuarios_pendientes.push((cuenta(0x02), TIPO_DE_USUARIO::CANDIDATO));

    let result = eleccion.procesar_siguiente_usuario_pendiente(true);
    assert_eq!(como_texto(result), Ok(String::from("Usuario agregado exitosamente.")));
    assert_eq!(eleccion.votantes.len(), 1);
    assert_eq!(eleccion.candidatos.len(), 0);

    let result = eleccion.procesar_siguiente_usuario_pendiente(true);
    assert_eq!(como_texto(result), Ok(String::from("Usuario agregado exitosamente.")));
    assert_eq!(eleccion.votantes.len(), 1);
    assert_eq!(eleccion.candidatos.len(), 1);

    let result = eleccion.procesar_siguiente_usuario_pendiente(false);
    assert_eq!(como_texto(result), Err(String::from("No hay usuarios pendientes.")));
}

#[test]
fn lib_test_obtener_informacion_candidato() {
    let mut eleccion = setup_eleccion();
    let alice = cuenta(0x01);
    let bob = cuenta(0x02);
    eleccion.candidatos.push(CandidatoConteo { id: alice, candidato_id: 1, votos_totales: 0 });
    eleccion.candidatos.push(CandidatoConteo { id: bob, candidato_id: 2, votos_totales: 0 });

    let candidato_info = eleccion.obtener_informacion_candidato(1);
    assert!(candidato_info.is_some());
    assert_eq!(candidato_info.unwrap().id, alice);

    let candidato_info = eleccion.obtener_informacion_candidato(2);
    assert!(candidato_info.is_some());
    assert_eq!(candidato_info.unwrap().id, bob);

    let candidato_info = eleccion.obtener_informacion_candidato(3);
    assert!(candidato_info.is_none());
}

#[test]
fn resultados_en_orden_de_inscripcion() {
    let mut eleccion = setup_eleccion();
    eleccion.fecha_final = 100;
    eleccion.candidatos.push(CandidatoConteo { id: cuenta(0x05), candidato_id: 1, votos_totales: 1 });
    eleccion.candidatos.push(CandidatoConteo { id: cuenta(0x06), candidato_id: 2, votos_totales: 3 });
    eleccion.votantes.push(Votante { id: cuenta(0x07), voto_emitido: true });
    eleccion.votantes.push(Votante { id: cuenta(0x08), voto_emitido: false });
    assert!(eleccion.obtener_resultados_votacion(100).is_none());
    let esperado = Resultados {
        votos_totales: 2,
        votos_realizados: 1,
        votos_candidatos: vec![(cuenta(0x05), 1), (cuenta(0x06), 3)],
    };
    assert_eq!(eleccion.obtener_resultados_votacion(101), Some(esperado.clone()));
    assert_eq!(eleccion.resultados, Some(esperado));
}

#[test]
fn mensaje_de_eleccion_creada() {
    assert_eq!(Exito::ElectionCreated(12345).mensaje(), "Eleccion creada exitosamente. Id de la elección: 12345");
    assert_eq!(Exito::ElectionCreated(0).mensaje(), "Eleccion creada exitosamente. Id de la elección: 0");
    assert_eq!(ErrorSistema::CountOverflow.mensaje(), "Se produjo un overflow al contar los votantes.");
}
