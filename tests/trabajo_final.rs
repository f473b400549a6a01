use trabajo_final::eleccion::{CandidatoConteo, Eleccion, Resultados, Votante, TIPO_DE_USUARIO};
use trabajo_final::errores::{como_texto, ErrorSistema};
use trabajo_final::identidad::AccountId;
use trabajo_final::trabajo_final::{TrabajoFinal, Usuario};

fn cuenta(b: u8) -> AccountId {
    AccountId::from([b; 32])
}

fn alice() -> AccountId {
    cuenta(0x01)
}

fn bob() -> AccountId {
    cuenta(0x02)
}

fn charlie() -> AccountId {
    cuenta(0x03)
}

fn setup_eleccion() -> Eleccion {
    Eleccion {
        id: 1,
        candidatos: Vec::new(),
        votantes: Vec::new(),
        usuarios_rechazados: Vec::new(),
        usuarios_pendientes: Vec::new(),
        votacion_iniciada: false,
        fecha_inicio: 0,
        fecha_final: 0,
        resultados: None,
    }
}

fn eleccion_con(id: u64, inicio: u64, fin: u64) -> Eleccion {
    Eleccion { id, fecha_inicio: inicio, fecha_final: fin, ..setup_eleccion() }
}

fn crear_usuario(id: AccountId, nombre: &str, apellido: &str, dni: &str) -> Usuario {
    Usuario { id, nombre: nombre.to_string(), apellido: apellido.to_string(), dni: dni.to_string() }
}

fn crear_trabajo_final(administrador: AccountId) -> TrabajoFinal {
    TrabajoFinal {
        administrador,
        generador_reportes: None,
        registro_activado: false,
        usuarios: Vec::new(),
        usuarios_pendientes: Vec::new(),
        usuarios_rechazados: Vec::new(),
        elecciones: Vec::new(),
    }
}

#[test]
fn test_obtener_resultados_votacion() {
    let administrador = cuenta(0x1);
    let ahora: u64 = 1675666400000;
    let mut contrato = TrabajoFinal::new(administrador);
    let _ = contrato.activar_registro(administrador);
    let _ = contrato.crear_eleccion_privado(administrador, "01-01-2023 12:00".to_string(), "31-01-2025 12:00".to_string());
    let _ = contrato.crear_eleccion_privado(administrador, "01-01-2023 12:00".to_string(), "31-01-2023 12:00".to_string());

    let eleccion = contrato.obtener_eleccion_por_id(1).unwrap();
    assert!(eleccion.obtener_resultados_votacion(ahora).is_none());

    let eleccion = contrato.obtener_eleccion_por_id(2).unwrap();
    let resultados = Resultados { votos_totales: 0, votos_candidatos: Vec::new(), votos_realizados: 0 };
    assert_eq!(eleccion.obtener_resultados_votacion(ahora), Some(resultados.clone()));
    assert_eq!(eleccion.obtener_resultados_votacion(ahora), Some(resultados));
}

#[test]
fn test_desactivar_registro() {
    let mut contrato = TrabajoFinal::new(alice());
    let id_administrador = cuenta(1);
    contrato.administrador = id_administrador;
    let result = contrato.desactivar_registro(id_administrador);
    assert_eq!(como_texto(result), Err("El registro ya está desactivado.".to_string()));
}

#[test]
fn test_obtener_resultados_privado_exito() {
    let mut contrato = TrabajoFinal::new(alice());
    let id_administrador = cuenta(1);
    let id_candidato = cuenta(0x06);
    let vector_votos_candidatos = vec![(id_candidato, 13), (id_candidato, 7), (id_candidato, 3), (id_candidato, 2)];
    contrato.administrador = id_administrador;
    contrato.elecciones.push(Eleccion {
        resultados: Some(Resultados {
            votos_totales: 30,
            votos_realizados: 25,
            votos_candidatos: vector_votos_candidatos.clone(),
        }),
        ..eleccion_con(1, 50, 100)
    });
    let result_obtener = contrato.obtener_resultados_privado(705, 1);
    assert!(result_obtener.is_ok(), "Error al obtener los resultados de la elección");
    let r = result_obtener.unwrap();
    assert_eq!(r.votos_totales, 30);
    assert_eq!(r.votos_candidatos, vector_votos_candidatos);
}

#[test]
fn test_obtener_resultados_privado_fallo_eleccion_inexistente() {
    let mut contrato = TrabajoFinal::new(alice());
    contrato.administrador = cuenta(1);
    contrato.elecciones.push(eleccion_con(1, 0, 100));
    let result_obtener = contrato.obtener_resultados_privado(0, 10);
    assert!(result_obtener.is_err());
    assert_eq!(result_obtener.unwrap_err(), ErrorSistema::ElectionNotFoundForResults);
}

#[test]
fn test_obtener_resultados_privado_fallo_no_finalizo() {
    let mut contrato = TrabajoFinal::new(alice());
    contrato.administrador = cuenta(1);
    contrato.elecciones.push(eleccion_con(1, 50, 100));
    let result_obtener = contrato.obtener_resultados_privado(75, 1);
    assert!(result_obtener.is_err());
    assert_eq!(result_obtener.unwrap_err(), ErrorSistema::NotYetFinished);
}

#[test]
fn test_obtener_informacion_usuario() {
    let generador_reportes = cuenta(0);
    let administrador = cuenta(1);
    let user_id = cuenta(2);
    let mut contrato = TrabajoFinal::new(administrador);
    assert!(contrato.asignar_generador_reportes(administrador, generador_reportes).is_ok());

    assert!(contrato.obtener_informacion_usuario(administrador, user_id).is_none());
    assert!(contrato.obtener_informacion_usuario(generador_reportes, user_id).is_none());

    let user = crear_usuario(user_id, "Joaquin", "Fontana", "22222");
    let nombre = user.nombre.clone();
    let apellido = user.apellido.clone();
    let dni = user.dni.clone();
    contrato.usuarios.push(user);
    assert!(contrato
        .obtener_informacion_usuario(generador_reportes, user_id)
        .is_some_and(|tupla| tupla.0 == nombre && tupla.1 == apellido && tupla.2 == dni));
}

#[test]
fn test_obtener_votantes_eleccion_por_id_privado() {
    let administrador = cuenta(0x1);
    let ahora: u64 = 1675666400000;
    let mut contrato = TrabajoFinal::new(administrador);
    let _ = contrato.activar_registro(administrador);
    let _ = contrato.crear_eleccion_privado(administrador, "01-01-2023 12:00".to_string(), "31-01-2025 12:00".to_string());
    let _ = contrato.crear_eleccion_privado(administrador, "01-01-2023 12:00".to_string(), "31-01-2023 12:00".to_string());

    assert!(contrato.obtener_votantes_eleccion_por_id_privado(administrador, ahora, 1).is_err());
    let _ = contrato.asignar_generador_reportes_privado(administrador, administrador);
    assert!(contrato.obtener_votantes_eleccion_por_id_privado(administrador, ahora, 1).is_err());

    let err = contrato.obtener_votantes_eleccion_por_id_privado(administrador, ahora, 2);
    assert!(err.is_ok());

    let err = contrato.obtener_votantes_eleccion_por_id_privado(administrador, ahora, 3);
    assert!(err.is_err());
}

#[test]
fn test_obtener_informacion_candidato() {
    let administrador = cuenta(0x1);
    let bob = cuenta(0x2);
    let ahora: u64 = 0;
    let mut contrato = TrabajoFinal::new(administrador);
    let _ = contrato.activar_registro(administrador);
    let _ = contrato.crear_eleccion(administrador, String::from("01-07-2024 12:00"), String::from("31-12-2024 12:00"));
    let _ = contrato.registrarse(bob, String::from("Bob"), String::from("Bob"), String::from("Bob"));
    let _ = contrato.procesar_siguiente_usuario_pendiente(administrador, true);
    let _ = contrato.ingresar_a_eleccion_privado(bob, ahora, 1, TIPO_DE_USUARIO::CANDIDATO);
    let _ = contrato.procesar_usuarios_en_una_eleccion_privado(administrador, 1, true);

    let res = contrato.obtener_informacion_candidato_eleccion(1, 1);
    assert!(res.is_ok());
    let res = contrato.obtener_informacion_candidato_eleccion(2, 1);
    assert!(res.is_err());
    let res = contrato.obtener_informacion_candidato_eleccion(1, 2);
    assert!(res.is_err());
}

#[test]
fn test_votar_a_candidato_privado() {
    let alice = alice();
    let bob = bob();
    let charlie = charlie();
    let ahora: u64 = 0;
    let mut contrato = TrabajoFinal::new(alice);
    let nueva_eleccion = contrato.crear_eleccion_privado(alice, String::from("01-07-2024 12:00"), String::from("31-12-2024 12:00"));
    assert_eq!(como_texto(nueva_eleccion), Ok(format!("Eleccion creada exitosamente. Id de la elección: 1")));
    let _ = contrato.activar_registro_privado(alice);

    let result = contrato.registrarse_privado(bob, "Bob".to_string(), "Asd".to_string(), "12345678".to_string());
    assert_eq!(como_texto(result), Ok("Registro exitoso. Se te añadió en la cola de usuarios pendientes.".to_string()));
    let result = contrato.registrarse_privado(charlie, "Charlie".to_string(), "Dsa".to_string(), "87654321".to_string());
    assert_eq!(como_texto(result), Ok("Registro exitoso. Se te añadió en la cola de usuarios pendientes.".to_string()));

    let _ = contrato.procesar_siguiente_usuario_pendiente_privado(alice, true);
    let _ = contrato.procesar_siguiente_usuario_pendiente_privado(alice, true);

    let _ = contrato.ingresar_a_eleccion_privado(bob, ahora, 1, TIPO_DE_USUARIO::CANDIDATO);
    let _ = contrato.ingresar_a_eleccion_privado(charlie, ahora, 1, TIPO_DE_USUARIO::VOTANTE);

    let result = contrato.procesar_usuarios_en_una_eleccion_privado(alice, 1, true);
    assert_eq!(como_texto(result), Ok(String::from("Usuario agregado exitosamente.")));
    let result = contrato.procesar_usuarios_en_una_eleccion_privado(alice, 1, true);
    assert_eq!(como_texto(result), Ok(String::from("Usuario agregado exitosamente.")));

    let result = contrato.votar_a_candidato_privado(alice, ahora, 1, 1);
    assert_eq!(
        como_texto(result),
        Err(String::from("No estás registrado en el sistema. Espera a que te acepten en el mismo o realiza la solicitud."))
    );

    let result = contrato.votar_a_candidato_privado(charlie, ahora, 1, 1);
    assert_eq!(como_texto(result), Err(String::from("Todavía no es la fecha para la votación.")));

    contrato.elecciones[0].votacion_iniciada = true;
    let result = contrato.votar_a_candidato_privado(charlie, ahora, 1, 2);
    assert_eq!(como_texto(result), Err(String::from("No existe un candidato con este id.")));

    let result = contrato.votar_a_candidato_privado(charlie, ahora, 1, 1);
    assert_eq!(como_texto(result), Ok(String::from("Voto emitido exitosamente.")));

    let result = contrato.votar_a_candidato_privado(charlie, ahora, 1, 1);
    assert_eq!(como_texto(result), Err("No se realizó el voto porque ya votaste anteriormente.".to_string()));

    let result = contrato.votar_a_candidato_privado(charlie, ahora, 7, 1);
    assert_eq!(como_texto(result), Err(String::from("No existe una elección con ese id.")));

    let result = contrato.votar_a_candidato_privado(bob, ahora, 1, 1);
    assert_eq!(como_texto(result), Err(String::from("No estás registrado en la elección.")));
}

#[test]
fn test_obtener_informacion_siguiente_usuario_pendiente_privado() {
    let alice = alice();
    let bob = bob();
    let charlie = charlie();
    let mut contrato = TrabajoFinal::new(alice);
    let _ = contrato.activar_registro_privado(alice);
    let result = contrato.obtener_informacion_siguiente_usuario_pendiente(alice);
    assert_eq!(result.map_err(|e| e.mensaje()), Err(String::from("No hay usuarios pendientes.")));

    let _ = contrato.registrarse_privado(bob, "Bob".to_string(), "Asd".to_string(), "12345678".to_string());
    assert_eq!(contrato.usuarios_pendientes.len(), 1);

    let result = contrato.obtener_informacion_siguiente_usuario_pendiente(alice);
    let string_bob = "Nombre: Bob\nApellido: Asd\nDNI: 12345678".to_string();
    assert_eq!(result.map_err(|e| e.mensaje()), Ok(string_bob));

    let _ = contrato.registrarse_privado(charlie, "Charlie".to_string(), "Asd".to_string(), "12345678".to_string());
    assert_eq!(contrato.usuarios_pendientes.len(), 2);

    let _ = contrato.procesar_siguiente_usuario_pendiente_privado(alice, true);
    let result = contrato.obtener_informacion_siguiente_usuario_pendiente(alice);
    let string_charlie = "Nombre: Charlie\nApellido: Asd\nDNI: 12345678".to_string();
    assert_eq!(result.map_err(|e| e.mensaje()), Ok(string_charlie));

    let _ = contrato.procesar_siguiente_usuario_pendiente_privado(alice, true);
    let result = contrato.obtener_informacion_siguiente_usuario_pendiente(alice);
    assert_eq!(result.map_err(|e| e.mensaje()), Err(String::from("No hay usuarios pendientes.")));
}

#[test]
fn test_constructor() {
    let alice = alice();
    let charlie = charlie();
    let sistema_elecciones = TrabajoFinal::new(alice);
    assert_eq!(sistema_elecciones.registro_activado, false);
    assert_eq!(sistema_elecciones.administrador, alice);
    assert_ne!(sistema_elecciones.administrador, charlie);
}

#[test]
fn test_obtener_informacion_siguiente_usuario_pendiente() {
    let administrador = cuenta(0x1);
    let otro_usuario = cuenta(0x2);
    let mut contrato = TrabajoFinal::new(administrador);
    let usuario = crear_usuario(otro_usuario, "Joaquin", "Fontana", "22222222");
    let mut str = String::from("Nombre: ") + usuario.nombre.as_str();
    str.push_str((String::from("\nApellido: ") + usuario.apellido.as_str()).as_str());
    str.push_str((String::from("\nDNI: ") + usuario.dni.as_str()).as_str());
    let result = contrato.obtener_informacion_siguiente_usuario_pendiente(administrador);
    assert!(result.is_err());
    contrato.usuarios_pendientes.push(usuario);
    let result = contrato.obtener_informacion_siguiente_usuario_pendiente(administrador);
    assert!(result.is_ok_and(|info| info == str));
}

#[test]
fn test_transferir_administrador() {
    let alice = alice();
    let charlie = charlie();
    let bob = bob();
    let mut sistema_elecciones = TrabajoFinal::new(alice);

    let result = sistema_elecciones.transferir_administrador_privado(alice, charlie);
    assert!(result.is_ok());
    assert_ne!(sistema_elecciones.administrador, alice);
    assert_eq!(sistema_elecciones.administrador, charlie);

    let result = sistema_elecciones.transferir_administrador_privado(bob, charlie);
    assert!(result.is_err());
    assert_ne!(sistema_elecciones.administrador, alice);
    assert_eq!(sistema_elecciones.administrador, charlie);
}

#[test]
fn test_obtener_candidatos_eleccion_por_id() {
    let administrador = cuenta(0x1);
    let generador_reportes = cuenta(0x2);
    let inicio_de_bloque: u64 = 0;
    let mut contrato = TrabajoFinal::new(administrador);
    assert!(contrato.asignar_generador_reportes(administrador, generador_reportes).is_ok());
    assert!(contrato.generador_reportes.is_some_and(|id| id == generador_reportes));
    let mut eleccion = setup_eleccion();
    let eleccion_id = eleccion.id;
    eleccion.fecha_final = inicio_de_bloque;
    contrato.elecciones.push(eleccion);
    let ahora = inicio_de_bloque + 6;
    let resultado = contrato.obtener_candidatos_eleccion_por_id_privado(generador_reportes, ahora, eleccion_id);
    assert!(resultado.is_ok(), "Error al obtener candidatos para la elección: {:?}", resultado.unwrap_err().mensaje());
}

#[test]
fn test_obtener_usuario() {
    let id = alice();
    let mut trabajo_final = TrabajoFinal::new(id);
    trabajo_final.usuarios.push(crear_usuario(id, "Juan", "Perez", "12345678"));
    let result = trabajo_final.obtener_usuario(id);
    assert!(result.is_some());
    let user = result.unwrap();
    assert_eq!(user.nombre, "Juan");
    assert_eq!(user.apellido, "Perez");
    assert_eq!(user.dni, "12345678");
}

#[test]
fn test_es_usuario_registrado() {
    let id = alice();
    let mut trabajo_final = TrabajoFinal::new(id);
    trabajo_final.usuarios.push(crear_usuario(id, "Juan", "Perez", "12345678"));
    assert!(trabajo_final.es_usuario_registrado(id));
}

#[test]
fn test_es_usuario_pendiente() {
    let id = alice();
    let mut trabajo_final = TrabajoFinal::new(id);
    trabajo_final.usuarios_pendientes.push(crear_usuario(id, "Juan", "Perez", "12345678"));
    assert!(trabajo_final.es_usuario_pendiente(id));
}

#[test]
fn test_existe_eleccion() {
    let mut trabajo_final = crear_trabajo_final(cuenta(0));
    trabajo_final.elecciones.push(setup_eleccion());
    assert!(trabajo_final.existe_eleccion(1));
    assert!(!trabajo_final.existe_eleccion(2));
}

#[test]
fn test_obtener_eleccion_por_id() {
    let mut trabajo_final = crear_trabajo_final(cuenta(0));
    trabajo_final.elecciones.push(setup_eleccion());
    let result = trabajo_final.obtener_eleccion_por_id(1);
    assert!(result.is_some());
    assert_eq!(result.unwrap().id, 1);
    assert!(trabajo_final.obtener_eleccion_por_id(2).is_none());
}

#[test]
fn test_activar_registro() {
    let mut contract = TrabajoFinal::new(alice());
    let res = contract.activar_registro_privado(alice());
    assert_eq!(como_texto(res), Ok(String::from("Se activó el registro para los usuarios.")));
    assert_eq!(contract.registro_activado, true);
    let res = contract.activar_registro_privado(alice());
    assert_eq!(como_texto(res), Err(String::from("El registro ya está activado.")));
}

#[test]
fn test_registro_usuario() {
    let administrador = cuenta(0x1);
    let otro_usuario = cuenta(0x2);
    let mut contrato = TrabajoFinal::new(administrador);
    contrato.activar_registro_privado(administrador).unwrap();
    let resultado = contrato.registrarse_privado(otro_usuario, "John".to_string(), "Doe".to_string(), "12345678".to_string());
    assert_eq!(como_texto(resultado), Ok("Registro exitoso. Se te añadió en la cola de usuarios pendientes.".to_string()));
}

#[test]
fn test_obtener_ref_eleccion_por_id() {
    let mut contrato = TrabajoFinal::new(alice());
    let candidato1 = CandidatoConteo { id: cuenta(0x01), candidato_id: 1, votos_totales: 0 };
    let candidato2 = CandidatoConteo { id: cuenta(0x02), candidato_id: 2, votos_totales: 0 };
    let votante1 = Votante { id: cuenta(0x03), voto_emitido: false };
    let votante2 = Votante { id: cuenta(0x04), voto_emitido: false };
    contrato.elecciones.push(Eleccion { candidatos: vec![candidato1], votantes: vec![votante1], ..eleccion_con(1, 0, 0) });
    contrato.elecciones.push(Eleccion { candidatos: vec![candidato2], votantes: vec![votante2], ..eleccion_con(2, 0, 0) });

    let resultado = contrato.obtener_ref_eleccion_por_id(1);
    assert!(resultado.is_some());
    assert_eq!(resultado.unwrap(), &contrato.elecciones[0]);

    let resultado = contrato.obtener_ref_eleccion_por_id(2);
    assert!(resultado.is_some());
    assert_eq!(resultado.unwrap(), &contrato.elecciones[1]);

    let resultado = contrato.obtener_ref_eleccion_por_id(3);
    assert!(resultado.is_none());
}

#[test]
fn test_validar_estado_eleccion() {
    let mut contrato = TrabajoFinal::new(alice());
    let usuario_id = cuenta(0x01);
    contrato.elecciones.push(Eleccion {
        usuarios_pendientes: vec![(usuario_id, TIPO_DE_USUARIO::VOTANTE)],
        ..eleccion_con(1, 100, 200)
    });
    contrato.elecciones.push(Eleccion { votacion_iniciada: true, ..eleccion_con(2, 100, 200) });
    contrato.elecciones.push(eleccion_con(3, 100, 50));
    contrato.elecciones.push(eleccion_con(4, 150, 200));

    let resultado = contrato.validar_estado_eleccion(1, 50, usuario_id);
    assert_eq!(resultado.map_err(|e| e.mensaje()).map(|e| e.id), Err(String::from("Ya está registrado en la elección.")));

    let resultado = contrato.validar_estado_eleccion(2, 50, usuario_id);
    assert_eq!(
        resultado.map_err(|e| e.mensaje()).map(|e| e.id),
        Err(String::from("La votación en la elección ya comenzó, no te puedes registrar."))
    );

    let resultado = contrato.validar_estado_eleccion(3, 52, usuario_id);
    assert_eq!(
        resultado.map_err(|e| e.mensaje()).map(|e| e.id),
        Err(String::from("La elección ya finalizó, no te puedes registrar."))
    );

    let resultado = contrato.validar_estado_eleccion(4, 50, usuario_id);
    assert!(resultado.is_ok());
    let eleccion = resultado.unwrap();
    assert_eq!(eleccion.id, 4);
}

#[test]
fn test_crear_eleccion() {
    let mut contrato = TrabajoFinal::new(alice());
    let administrador = cuenta(0x1);
    contrato.administrador = administrador;

    let resultado = contrato.crear_eleccion_privado(administrador, "01-01-2025 12:00".to_string(), "31-01-2025 12:00".to_string());
    assert_eq!(como_texto(resultado), Ok("Eleccion creada exitosamente. Id de la elección: 1".to_string()));

    assert_eq!(contrato.elecciones.len(), 1);
    let eleccion = &contrato.elecciones[0];
    assert_eq!(eleccion.id, 1);
    assert_eq!(eleccion.fecha_inicio, 1735732800000);
    assert_eq!(eleccion.fecha_final, 1738324800000);

    let resultado = contrato.crear_eleccion_privado(administrador, "01-01-2025 12:00".to_string(), "invalid-date".to_string());
    assert_eq!(como_texto(resultado), Err("Error en el formato de la fecha final. Formato: dd-mm-YYYY hh:mm".to_string()));

    let resultado = contrato.crear_eleccion_privado(administrador, "invalid-date".to_string(), "31-01-2025 12:00".to_string());
    assert_eq!(como_texto(resultado), Err("Error en el formato de la fecha inicial. Formato: dd-mm-YYYY hh:mm".to_string()));

    contrato.administrador = cuenta(0x2);
    let resultado = contrato.crear_eleccion_privado(administrador, "01-01-2025 12:00".to_string(), "31-01-2025 12:00".to_string());
    assert_eq!(como_texto(resultado), Err(ErrorSistema::NotAdministrator.mensaje()));
}

#[test]
fn test_procesar_usuarios_en_una_eleccion() {
    let mut contrato = TrabajoFinal::new(alice());
    contrato.crear_eleccion_privado(alice(), String::from("01-07-2024 12:00"), String::from("02-07-2024 12:00")).unwrap();
    contrato.elecciones[0].usuarios_pendientes.push((alice(), TIPO_DE_USUARIO::VOTANTE));
    contrato.elecciones[0].usuarios_pendientes.push((bob(), TIPO_DE_USUARIO::CANDIDATO));

    let result = contrato.procesar_usuarios_en_una_eleccion(alice(), 1, true);
    assert_eq!(como_texto(result), Ok(String::from("Usuario agregado exitosamente.")));
    let result = contrato.procesar_usuarios_en_una_eleccion(alice(), 1, true);
    assert_eq!(como_texto(result), Ok(String::from("Usuario agregado exitosamente.")));
    let result = contrato.procesar_usuarios_en_una_eleccion(alice(), 1, false);
    assert_eq!(como_texto(result), Err(String::from("No hay usuarios pendientes.")));
    let result = contrato.procesar_usuarios_en_una_eleccion(alice(), 2, true);
    assert_eq!(como_texto(result), Err(String::from("Eleccion no encontrada")));
}

#[test]
fn test_ingresar_a_eleccion() {
    let alice = alice();
    let charlie = charlie();
    let eleccion_id: u64 = 1;
    let tipo_usuario = TIPO_DE_USUARIO::VOTANTE;
    let ahora: u64 = 0;
    let mut contract = TrabajoFinal::new(alice);
    contract.activar_registro(alice).unwrap();
    contract.crear_eleccion(alice, "01-01-2024 10:00".into(), "02-01-2024 10:00".into()).unwrap();

    let result = contract.ingresar_a_eleccion_privado(charlie, ahora, eleccion_id, tipo_usuario);
    assert_eq!(como_texto(result), Err(ErrorSistema::NotRegistered.mensaje()), "Error: Usuario no registrado");

    let result = contract.registrarse(charlie, "Juan".into(), "Perez".into(), "12345678".into()).unwrap();
    assert_eq!(result.mensaje(), String::from("Registro exitoso. Se te añadió en la cola de usuarios pendientes."));

    let result = contract.procesar_siguiente_usuario_pendiente(alice, true);
    assert_eq!(como_texto(result), Ok(String::from("Usuario agregado exitosamente.")));

    let result = contract.ingresar_a_eleccion_privado(charlie, ahora, eleccion_id, tipo_usuario);
    assert_eq!(
        como_texto(result),
        Ok(String::from("Ingresó a la elección correctamente Pendiente de aprobacion del Administrador"))
    );

    contract.elecciones[0].usuarios_rechazados.clear();
    contract.elecciones[0].usuarios_pendientes.clear();
}

#[test]
fn test_iniciar_votacion_privado() {
    let mut contrato = TrabajoFinal::new(alice());
    contrato.elecciones.push(eleccion_con(1, 50, 150));

    assert_eq!(como_texto(contrato.iniciar_votacion_privado(bob(), 0, 1)), Err(String::from("No eres el administrador.")));

    assert_eq!(
        como_texto(contrato.iniciar_votacion_privado(alice(), 0, 2)),
        Err(String::from("No existe una elección con ese id."))
    );

    assert_eq!(como_texto(contrato.iniciar_votacion_privado(alice(), 200, 1)), Err(String::from("La votación ya finalizó.")));

    contrato.elecciones[0].votacion_iniciada = true;
    assert_eq!(como_texto(contrato.iniciar_votacion_privado(alice(), 100, 1)), Err(String::from("La votación ya inició.")));

    contrato.elecciones[0].votacion_iniciada = false;
    assert_eq!(
        como_texto(contrato.iniciar_votacion_privado(alice(), 30, 1)),
        Err(String::from("Todavía no es la fecha para la votación."))
    );

    assert_eq!(
        como_texto(contrato.iniciar_votacion_privado(alice(), 100, 1)),
        Ok(String::from("Se inició la votación exitosamente."))
    );
    assert!(contrato.elecciones[0].votacion_iniciada);
}

#[test]
fn test_obtener_siguiente_usuario_pendiente_en_una_eleccion_privado_exito_VOTANTE() {
    let mut contrato = TrabajoFinal::new(alice());
    let id_administrador = cuenta(1);
    let id_usuario = cuenta(2);
    contrato.administrador = id_administrador;
    contrato.elecciones.push(Eleccion {
        usuarios_pendientes: vec![(id_usuario, TIPO_DE_USUARIO::VOTANTE)],
        ..eleccion_con(1, 0, 100)
    });
    let result_obtener = contrato.obtener_siguiente_usuario_pendiente_en_una_eleccion_privado(id_administrador, 1);
    assert!(result_obtener.is_ok(), "Error al obtener el siguiente usuario pendiente en la elección");
    let result_obtener = contrato.obtener_siguiente_usuario_pendiente_en_una_eleccion_privado(id_administrador, 1);
    assert!(result_obtener.is_ok(), "Error al obtener el siguiente usuario pendiente en la elección");
}

#[test]
fn test_obtener_siguiente_usuario_pendiente_en_una_eleccion_privado_exito_CANDIDATO() {
    let mut contrato = TrabajoFinal::new(alice());
    let id_administrador = cuenta(1);
    let id_usuario = cuenta(2);
    contrato.administrador = id_administrador;
    contrato.elecciones.push(Eleccion {
        usuarios_pendientes: vec![(id_usuario, TIPO_DE_USUARIO::CANDIDATO)],
        ..eleccion_con(1, 0, 100)
    });
    let result_obtener = contrato.obtener_siguiente_usuario_pendiente_en_una_eleccion_privado(id_administrador, 1);
    assert!(result_obtener.is_ok(), "Error al obtener el siguiente usuario pendiente en la elección");
    let result_obtener = contrato.obtener_siguiente_usuario_pendiente_en_una_eleccion_privado(id_administrador, 1);
    assert!(result_obtener.is_ok(), "Error al obtener el siguiente usuario pendiente en la elección");
}

#[test]
fn test_obtener_siguiente_usuario_pendiente_en_una_eleccion_privado_fallo_eleccion_inexistente() {
    let mut contrato = TrabajoFinal::new(alice());
    let id_administrador = cuenta(1);
    contrato.administrador = id_administrador;
    contrato.elecciones.push(Eleccion {
        usuarios_pendientes: vec![(cuenta(2), TIPO_DE_USUARIO::VOTANTE)],
        ..eleccion_con(1, 0, 100)
    });
    let result_obtener = contrato.obtener_siguiente_usuario_pendiente_en_una_eleccion_privado(id_administrador, 10);
    assert!(result_obtener.is_err());
}

#[test]
fn test_obtener_siguiente_usuario_pendiente_en_una_eleccion_privado_fallo_sin_usuarios_pendientes() {
    let mut contrato = TrabajoFinal::new(alice());
    let id_administrador = cuenta(1);
    contrato.administrador = id_administrador;
    contrato.elecciones.push(eleccion_con(1, 0, 100));
    let result_obtener = contrato.obtener_siguiente_usuario_pendiente_en_una_eleccion_privado(id_administrador, 1);
    assert!(result_obtener.is_err());
}

#[test]
fn lib_test_obtener_usuario() {
    let id = alice();
    let mut trabajo_final = TrabajoFinal::new(id);
    trabajo_final.usuarios.push(crear_usuario(id, "Juan", "Perez", "12345678"));
    let result = trabajo_final.obtener_usuario(id);
    assert!(result.is_some());
    let user = result.unwrap();
    assert_eq!(user.nombre, "Juan");
    assert_eq!(user.apellido, "Perez");
    assert_eq!(user.dni, "12345678");
}

#[test]
fn lib_test_es_usuario_registrado() {
    let id = alice();
    let mut trabajo_final = TrabajoFinal::new(id);
    trabajo_final.usuarios.push(crear_usuario(id, "Juan", "Perez", "12345678"));
    assert!(trabajo_final.es_usuario_registrado(id));
}

#[test]
fn lib_test_es_usuario_pendiente() {
    let id = alice();
    let mut trabajo_final = TrabajoFinal::new(id);
    trabajo_final.usuarios_pendientes.push(crear_usuario(id, "Juan", "Perez", "12345678"));
    assert!(trabajo_final.es_usuario_pendiente(id));
}

#[test]
fn lib_test_existe_eleccion() {
    let mut trabajo_final = crear_trabajo_final(cuenta(0));
    trabajo_final.elecciones.push(setup_eleccion());
    assert!(trabajo_final.existe_eleccion(1));
    assert!(!trabajo_final.existe_eleccion(2));
}

#[test]
fn lib_test_obtener_eleccion_por_id() {
    let mut trabajo_final = crear_trabajo_final(cuenta(0));
    trabajo_final.elecciones.push(setup_eleccion());
    let result = trabajo_final.obtener_eleccion_por_id(1);
    assert!(result.is_some());
    assert_eq!(result.unwrap().id, 1);
    assert!(trabajo_final.obtener_eleccion_por_id(2).is_none());
}
