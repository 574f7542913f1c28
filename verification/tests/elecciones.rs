use trabajo_final::{AccountId, TrabajoFinal, TIPO_DE_USUARIO};

fn cuenta(n: u8) -> AccountId {
    AccountId([n; 32])
}

fn s(t: &str) -> String {
    String::from(t)
}

const NO_ADMIN: &str = "No eres el administrador.";
const INICIO: &str = "01-01-2024 10:00";
const FIN: &str = "31-12-2024 18:30";
const INICIO_MS: u64 = 1704103200000;
const FIN_MS: u64 = 1735669800000;
const ANTES: u64 = INICIO_MS - 1000;
const DURANTE: u64 = INICIO_MS + 1000;
const DESPUES: u64 = FIN_MS + 1000;

/// A registry with users 1 to 4 accepted and election 1 created.
fn sistema_con_eleccion() -> (TrabajoFinal, AccountId) {
    let admin = cuenta(0);
    let mut t = TrabajoFinal::new(admin);
    t.activar_registro(admin).unwrap();
    for n in 1..=4u8 {
        t.registrarse(cuenta(n), format!("Nombre{}", n), format!("Apellido{}", n), s("1")).unwrap();
        t.procesar_siguiente_usuario_pendiente(admin, true).unwrap();
    }
    t.crear_eleccion(admin, s(INICIO), s(FIN)).unwrap();
    (t, admin)
}

/// Election 1 with user 1 as candidate 1, user 2 as candidate 2, user 3 as voter and
/// user 4 turned down.
fn eleccion_con_participantes() -> (TrabajoFinal, AccountId) {
    let (mut t, admin) = sistema_con_eleccion();
    t.abrir_eleccion(admin, 1, ANTES).unwrap();
    t.inscribir_usuario_en_eleccion(cuenta(1), 1, TIPO_DE_USUARIO::CANDIDATO, ANTES).unwrap();
    t.inscribir_usuario_en_eleccion(cuenta(2), 1, TIPO_DE_USUARIO::CANDIDATO, ANTES).unwrap();
    t.inscribir_usuario_en_eleccion(cuenta(3), 1, TIPO_DE_USUARIO::VOTANTE, ANTES).unwrap();
    t.inscribir_usuario_en_eleccion(cuenta(4), 1, TIPO_DE_USUARIO::VOTANTE, ANTES).unwrap();
    for aceptar in [true, true, true, false] {
        t.procesar_usuarios_en_una_eleccion(admin, 1, aceptar).unwrap();
    }
    (t, admin)
}

#[test]
fn crear_eleccion_y_sus_errores() {
    let admin = cuenta(0);
    let mut t = TrabajoFinal::new(admin);
    assert_eq!(t.crear_eleccion(cuenta(1), s(INICIO), s(FIN)), Err(s(NO_ADMIN)));
    assert_eq!(
        t.crear_eleccion(admin, s("2024-01-01 10:00"), s(FIN)),
        Err(s("Error en el formato de la fecha inicial. Formato: dd-mm-YYYY hh:mm"))
    );
    assert_eq!(
        t.crear_eleccion(admin, s(INICIO), s("31-02-2024 18:30")),
        Err(s("Error en el formato de la fecha final. Formato: dd-mm-YYYY hh:mm"))
    );
    assert!(t.obtener_ids_elecciones().is_empty());
    assert_eq!(
        t.crear_eleccion(admin, s(INICIO), s(FIN)),
        Ok(s("Eleccion creada exitosamente. Id de la elección: 1"))
    );
    assert_eq!(
        t.crear_eleccion(admin, s(INICIO), s(FIN)),
        Ok(s("Eleccion creada exitosamente. Id de la elección: 2"))
    );
    assert_eq!(t.obtener_ids_elecciones(), vec![1, 2]);
}

#[test]
fn fechas_leidas_en_milisegundos_utc() {
    let (mut t, _) = sistema_con_eleccion();
    assert_eq!(
        t.obtener_datos_eleccion_por_id(1),
        Ok(format!("ID: 1\nEstado: CERRADA\nfecha_inicio: {}\nfecha_final: {}", INICIO_MS, FIN_MS))
    );
    assert_eq!(t.obtener_datos_eleccion_por_id(2), Err(s("La eleccion enviada no existe!")));
    assert_eq!(t.obtener_datos_eleccion_por_id(0), Err(s("La eleccion enviada no existe!")));
}

#[test]
fn crear_eleccion_con_milisegundos() {
    let admin = cuenta(0);
    let mut t = TrabajoFinal::new(admin);
    assert_eq!(
        t.crear_eleccion_con_milisegundos(admin, None, Some(5)),
        Err(s("Error en el formato de la fecha inicial. Formato: dd-mm-YYYY hh:mm"))
    );
    assert_eq!(
        t.crear_eleccion_con_milisegundos(admin, Some(5), None),
        Err(s("Error en el formato de la fecha final. Formato: dd-mm-YYYY hh:mm"))
    );
    assert_eq!(
        t.crear_eleccion_con_milisegundos(admin, Some(5), Some(9)),
        Ok(s("Eleccion creada exitosamente. Id de la elección: 1"))
    );
    assert_eq!(
        t.obtener_datos_eleccion_por_id(1),
        Ok(s("ID: 1\nEstado: CERRADA\nfecha_inicio: 5\nfecha_final: 9"))
    );
}

#[test]
fn abrir_y_cerrar_eleccion() {
    let (mut t, admin) = sistema_con_eleccion();
    assert_eq!(t.abrir_eleccion(cuenta(1), 1, ANTES), Err(s(NO_ADMIN)));
    assert_eq!(t.abrir_eleccion(admin, 3, ANTES), Err(s("La eleccion enviada no existe!")));
    assert_eq!(
        t.abrir_eleccion(admin, 1, DURANTE),
        Err(s("La eleccion se encuentra en la fecha de votacion!"))
    );
    assert_eq!(
        t.cerrar_eleccion(admin, 1, ANTES),
        Err(s("La eleccion ya se encuantra en el estado correspondiente!"))
    );
    assert_eq!(
        t.abrir_eleccion(admin, 1, ANTES),
        Ok(s("Eleccion ABIERTA exitosamente. Id de la elección: 1"))
    );
    assert_eq!(
        t.abrir_eleccion(admin, 1, ANTES),
        Err(s("La eleccion ya se encuentra en el estado correspondiente!"))
    );
    assert_eq!(t.cerrar_eleccion(cuenta(1), 1, ANTES), Err(s(NO_ADMIN)));
    assert_eq!(
        t.cerrar_eleccion(admin, 1, DURANTE),
        Err(s("La eleccion se encuentra en la fecha de votacion!"))
    );
    assert_eq!(
        t.cerrar_eleccion(admin, 1, ANTES),
        Ok(s("Eleccion CERRADA exitosamente. Id de la elección: 1"))
    );
    assert_eq!(t.cerrar_eleccion(admin, 2, ANTES), Err(s("La eleccion enviada no existe!")));
}

#[test]
fn iniciar_y_finalizar_eleccion() {
    let (mut t, admin) = sistema_con_eleccion();
    assert_eq!(t.iniciar_eleccion(cuenta(1), 1, DURANTE), Err(s(NO_ADMIN)));
    assert_eq!(
        t.iniciar_eleccion(admin, 1, ANTES),
        Err(s("No es la fecha propuesta, no puedes iniciarla."))
    );
    assert_eq!(t.iniciar_eleccion(admin, 1, DESPUES), Err(s("Ya finalizo, no puedes iniciarla.")));
    assert_eq!(
        t.finalizar_eleccion(admin, 1, DURANTE),
        Err(s("No es la fecha propuesta, no puedes finalizarla."))
    );
    assert_eq!(
        t.iniciar_eleccion(admin, 1, DURANTE),
        Ok(s("Eleccion INICIADA exitosamente. Id de la elección: 1"))
    );
    assert_eq!(
        t.iniciar_eleccion(admin, 1, DURANTE),
        Err(s("La eleccion ya se encuentra en el estado correspondiente!"))
    );
    assert_eq!(
        t.abrir_eleccion(admin, 1, INICIO_MS),
        Err(s("La eleccion se encuentra en el estado de votacion!"))
    );
    assert_eq!(
        t.cerrar_eleccion(admin, 1, INICIO_MS),
        Err(s("La eleccion se encuentra en el estado de votacion!"))
    );
    assert_eq!(t.finalizar_eleccion(cuenta(1), 1, DESPUES), Err(s(NO_ADMIN)));
    assert_eq!(t.finalizar_eleccion(admin, 9, DESPUES), Err(s("La eleccion enviada no existe!")));
    assert_eq!(
        t.finalizar_eleccion(admin, 1, DESPUES),
        Ok(s("Eleccion FINALIZADA exitosamente. Id de la elección: 1"))
    );
    assert_eq!(
        t.finalizar_eleccion(admin, 1, DESPUES),
        Err(s("La eleccion ya se encuantra en el estado correspondiente!"))
    );
    assert_eq!(t.iniciar_eleccion(admin, 1, FIN_MS), Err(s("La eleccion ya cerro!")));
    assert_eq!(t.abrir_eleccion(admin, 1, INICIO_MS), Err(s("La eleccion ya cerro!")));
    assert_eq!(t.cerrar_eleccion(admin, 1, INICIO_MS), Err(s("La eleccion ya cerro!")));
    assert_eq!(
        t.obtener_datos_eleccion_por_id(1),
        Ok(format!("ID: 1\nEstado: FINALIZADA\nfecha_inicio: {}\nfecha_final: {}", INICIO_MS, FIN_MS))
    );
}

#[test]
fn inscripcion_en_eleccion() {
    let (mut t, admin) = sistema_con_eleccion();
    assert_eq!(
        t.inscribir_usuario_en_eleccion(cuenta(9), 1, TIPO_DE_USUARIO::VOTANTE, ANTES),
        Err(s("No estás registrado en el sistema. Espera a que te acepten en el mismo o realiza la solicitud."))
    );
    assert_eq!(
        t.inscribir_usuario_en_eleccion(cuenta(1), 5, TIPO_DE_USUARIO::VOTANTE, ANTES),
        Err(s("No existe una elección con ese id."))
    );
    assert_eq!(
        t.inscribir_usuario_en_eleccion(cuenta(1), 1, TIPO_DE_USUARIO::VOTANTE, ANTES),
        Err(s("La eleccion no esta abierta, no te puedes registrar."))
    );
    t.abrir_eleccion(admin, 1, ANTES).unwrap();
    assert_eq!(
        t.inscribir_usuario_en_eleccion(cuenta(1), 1, TIPO_DE_USUARIO::VOTANTE, ANTES),
        Ok(s("Ingresó a la elección correctamente Pendiente de aprobacion del Administrador"))
    );
    assert_eq!(
        t.inscribir_usuario_en_eleccion(cuenta(1), 1, TIPO_DE_USUARIO::CANDIDATO, ANTES),
        Err(s("Ya estás en la cola de usuarios pendientes."))
    );
    assert_eq!(
        t.obtener_siguiente_usuario_pendiente_en_una_eleccion(admin, 1),
        Ok(format!("Usuario: {}\nEl usuario quiere ser un VOTANTE", "01".repeat(32)))
    );
    t.procesar_usuarios_en_una_eleccion(admin, 1, true).unwrap();
    assert_eq!(
        t.inscribir_usuario_en_eleccion(cuenta(1), 1, TIPO_DE_USUARIO::VOTANTE, ANTES),
        Err(s("Ya estás registrado como votante."))
    );
}

#[test]
fn siguiente_pendiente_en_eleccion() {
    let (mut t, admin) = sistema_con_eleccion();
    assert_eq!(t.obtener_siguiente_usuario_pendiente_en_una_eleccion(cuenta(1), 1), Err(s(NO_ADMIN)));
    assert_eq!(
        t.obtener_siguiente_usuario_pendiente_en_una_eleccion(admin, 2),
        Err(s("Eleccion no encontrada"))
    );
    assert_eq!(
        t.obtener_siguiente_usuario_pendiente_en_una_eleccion(admin, 1),
        Err(s("No hay usuarios pendientes."))
    );
    t.abrir_eleccion(admin, 1, ANTES).unwrap();
    t.inscribir_usuario_en_eleccion(cuenta(2), 1, TIPO_DE_USUARIO::CANDIDATO, ANTES).unwrap();
    assert_eq!(
        t.obtener_siguiente_usuario_pendiente_en_una_eleccion(admin, 1),
        Ok(format!("Usuario: {}\nEl usuario quiere ser un CANDIDATO", "02".repeat(32)))
    );
}

#[test]
fn procesar_usuarios_en_eleccion() {
    let (mut t, admin) = eleccion_con_participantes();
    assert_eq!(t.procesar_usuarios_en_una_eleccion(cuenta(1), 1, true), Err(s(NO_ADMIN)));
    assert_eq!(t.procesar_usuarios_en_una_eleccion(admin, 7, true), Err(s("Eleccion no encontrada")));
    assert_eq!(
        t.procesar_usuarios_en_una_eleccion(admin, 1, true),
        Err(s("No hay usuarios pendientes."))
    );
    assert_eq!(
        t.inscribir_usuario_en_eleccion(cuenta(4), 1, TIPO_DE_USUARIO::VOTANTE, ANTES),
        Err(s("Tu solicitud de registro ya fue rechazada."))
    );
    assert_eq!(
        t.inscribir_usuario_en_eleccion(cuenta(1), 1, TIPO_DE_USUARIO::VOTANTE, ANTES),
        Err(s("Ya has sido aceptado como candidato"))
    );
    assert_eq!(
        t.obtener_candidatos_eleccion_por_id(1),
        Ok(format!(
            "ID: 1\n\n\nId candidato: 1\nId usuario: {}\nVotos recibidos: 0\n\n\nId candidato: 2\nId usuario: {}\nVotos recibidos: 0",
            "01".repeat(32),
            "02".repeat(32)
        ))
    );
    assert_eq!(
        t.obtener_votantes_eleccion_por_id(1),
        Ok(format!("ID: 1\n\n\nId usuario: {}\nVotos emitido: false", "03".repeat(32)))
    );
}

#[test]
fn inscripcion_tardia_mueve_la_eleccion() {
    let (mut t, admin) = sistema_con_eleccion();
    t.crear_eleccion(admin, s(INICIO), s(FIN)).unwrap();
    t.abrir_eleccion(admin, 1, ANTES).unwrap();
    t.abrir_eleccion(admin, 2, ANTES).unwrap();
    assert_eq!(
        t.inscribir_usuario_en_eleccion(cuenta(1), 1, TIPO_DE_USUARIO::VOTANTE, DURANTE),
        Err(s("La votación en la elección ya comenzó, no te puedes registrar."))
    );
    assert_eq!(
        t.obtener_datos_eleccion_por_id(1),
        Ok(format!("ID: 1\nEstado: INICIADA\nfecha_inicio: {}\nfecha_final: {}", INICIO_MS, FIN_MS))
    );
    assert_eq!(
        t.inscribir_usuario_en_eleccion(cuenta(1), 2, TIPO_DE_USUARIO::VOTANTE, DESPUES),
        Err(s("La elección ya finalizó, no te puedes registrar."))
    );
    assert_eq!(
        t.obtener_datos_eleccion_por_id(2),
        Ok(format!("ID: 2\nEstado: FINALIZADA\nfecha_inicio: {}\nfecha_final: {}", INICIO_MS, FIN_MS))
    );
}

#[test]
fn votacion_completa() {
    let (mut t, admin) = eleccion_con_participantes();
    assert_eq!(
        t.votar_a_candidato(cuenta(9), 1, 1, DURANTE),
        Err(s("No estás registrado en el sistema. Espera a que te acepten en el mismo o realiza la solicitud."))
    );
    assert_eq!(t.votar_a_candidato(cuenta(3), 2, 1, DURANTE), Err(s("No existe una elección con ese id.")));
    assert_eq!(
        t.votar_a_candidato(cuenta(3), 1, 1, ANTES),
        Err(s("La eleccion no inicio, no puedes votar."))
    );
    assert_eq!(
        t.votar_a_candidato(cuenta(4), 1, 1, DURANTE),
        Err(s("Tu solicitud de registro fue rechazada."))
    );
    assert_eq!(
        t.votar_a_candidato(cuenta(1), 1, 2, DURANTE),
        Err(s("No estás registrado como votante."))
    );
    assert_eq!(
        t.obtener_candidatos_eleccion_por_id(1),
        Err(s("La eleccion no finalizo aun!"))
    );
    assert_eq!(
        t.votar_a_candidato(cuenta(3), 1, 3, DURANTE),
        Err(s("No existe un candidato con este id."))
    );
    assert_eq!(
        t.votar_a_candidato(cuenta(3), 1, 0, DURANTE),
        Err(s("No existe un candidato con este id."))
    );
    assert_eq!(t.votar_a_candidato(cuenta(3), 1, 2, DURANTE), Ok(s("Voto emitido exitosamente.")));
    assert_eq!(
        t.votar_a_candidato(cuenta(3), 1, 1, DURANTE),
        Err(s("No se realizó el voto porque ya votaste anteriormente."))
    );
    assert_eq!(
        t.votar_a_candidato(cuenta(3), 1, 2, DESPUES),
        Err(s("La elección ya finalizó, no puedes votar."))
    );
    assert_eq!(
        t.obtener_candidatos_eleccion_por_id(1),
        Ok(format!(
            "ID: 1\n\n\nId candidato: 1\nId usuario: {}\nVotos recibidos: 0\n\n\nId candidato: 2\nId usuario: {}\nVotos recibidos: 1",
            "01".repeat(32),
            "02".repeat(32)
        ))
    );
    assert_eq!(
        t.obtener_votantes_eleccion_por_id(1),
        Ok(format!("ID: 1\n\n\nId usuario: {}\nVotos emitido: true", "03".repeat(32)))
    );
    assert!(t.finalizar_eleccion(admin, 1, DESPUES).is_err());
}

#[test]
fn votar_pone_la_eleccion_en_votacion() {
    let (mut t, _) = eleccion_con_participantes();
    assert_eq!(t.votar_a_candidato(cuenta(3), 1, 1, DURANTE), Ok(s("Voto emitido exitosamente.")));
    assert_eq!(
        t.obtener_datos_eleccion_por_id(1),
        Ok(format!("ID: 1\nEstado: INICIADA\nfecha_inicio: {}\nfecha_final: {}", INICIO_MS, FIN_MS))
    );
}

#[test]
fn eleccion_finalizada_no_acepta_votos() {
    let (mut t, admin) = eleccion_con_participantes();
    t.finalizar_eleccion(admin, 1, FIN_MS).unwrap();
    assert_eq!(
        t.votar_a_candidato(cuenta(3), 1, 1, FIN_MS),
        Err(s("La elección ya finalizó, no puedes votar."))
    );
    assert_eq!(
        t.votar_a_candidato(cuenta(3), 1, 1, DURANTE),
        Err(s("La elección ya finalizó, no puedes votar."))
    );
    assert_eq!(
        t.obtener_datos_eleccion_por_id(1),
        Ok(format!("ID: 1\nEstado: FINALIZADA\nfecha_inicio: {}\nfecha_final: {}", INICIO_MS, FIN_MS))
    );
    assert_eq!(
        t.obtener_votantes_eleccion_por_id(1),
        Ok(format!("ID: 1\n\n\nId usuario: {}\nVotos emitido: false", "03".repeat(32)))
    );
}

#[test]
fn eleccion_finalizada_conserva_las_otras_negativas() {
    let (mut t, admin) = eleccion_con_participantes();
    t.votar_a_candidato(cuenta(3), 1, 1, DURANTE).unwrap();
    t.finalizar_eleccion(admin, 1, FIN_MS).unwrap();
    assert_eq!(
        t.votar_a_candidato(cuenta(3), 1, 1, FIN_MS),
        Err(s("No se realizó el voto porque ya votaste anteriormente."))
    );
    assert_eq!(
        t.votar_a_candidato(cuenta(1), 1, 2, FIN_MS),
        Err(s("No estás registrado como votante."))
    );
    assert_eq!(
        t.votar_a_candidato(cuenta(3), 1, 1, ANTES),
        Err(s("La eleccion no inicio, no puedes votar."))
    );
    assert_eq!(
        t.obtener_datos_eleccion_por_id(1),
        Ok(format!("ID: 1\nEstado: FINALIZADA\nfecha_inicio: {}\nfecha_final: {}", INICIO_MS, FIN_MS))
    );
}

#[test]
fn informacion_de_candidato() {
    let (mut t, _) = eleccion_con_participantes();
    assert_eq!(
        t.obtener_informacion_candidato(cuenta(9), 1, 1),
        Err(s("No estás registrado en el sistema. Espera a que te acepten en el mismo o realiza la solicitud."))
    );
    assert_eq!(t.obtener_informacion_candidato(cuenta(3), 3, 1), Err(s("No existe una elección con ese id.")));
    assert_eq!(
        t.obtener_informacion_candidato(cuenta(4), 1, 1),
        Err(s("No estás registrado en la elección."))
    );
    assert_eq!(t.obtener_informacion_candidato(cuenta(4), 1, 0), Err(s("No existe un candidato con ese id.")));
    assert_eq!(t.obtener_informacion_candidato(cuenta(9), 3, 1), Err(s("No existe una elección con ese id.")));
    assert_eq!(t.obtener_informacion_candidato(cuenta(3), 1, 3), Err(s("No existe un candidato con ese id.")));
    assert_eq!(t.obtener_informacion_candidato(cuenta(3), 1, 0), Err(s("No existe un candidato con ese id.")));
    assert_eq!(
        t.obtener_informacion_candidato(cuenta(3), 1, 2),
        Ok(s("Nombre: Nombre2\nApellido: Apellido2"))
    );
    assert_eq!(
        t.obtener_informacion_candidato(cuenta(1), 1, 2),
        Ok(s("Nombre: Nombre2\nApellido: Apellido2"))
    );
}

#[test]
fn conteo_igual_a_votos_emitidos() {
    let admin = cuenta(0);
    let mut t = TrabajoFinal::new(admin);
    t.activar_registro(admin).unwrap();
    for n in 1..=6u8 {
        t.registrarse(cuenta(n), s("N"), s("A"), s("D")).unwrap();
        t.procesar_siguiente_usuario_pendiente(admin, true).unwrap();
    }
    t.crear_eleccion_con_milisegundos(admin, Some(100), Some(200)).unwrap();
    t.abrir_eleccion(admin, 1, 50).unwrap();
    t.inscribir_usuario_en_eleccion(cuenta(1), 1, TIPO_DE_USUARIO::CANDIDATO, 50).unwrap();
    for n in 2..=6u8 {
        t.inscribir_usuario_en_eleccion(cuenta(n), 1, TIPO_DE_USUARIO::VOTANTE, 50).unwrap();
    }
    for _ in 1..=6 {
        t.procesar_usuarios_en_una_eleccion(admin, 1, true).unwrap();
    }
    for n in 2..=4u8 {
        t.votar_a_candidato(cuenta(n), 1, 1, 150).unwrap();
    }
    t.finalizar_eleccion(admin, 1, 200).unwrap();
    let candidatos = t.obtener_candidatos_eleccion_por_id(1).unwrap();
    assert!(candidatos.ends_with("Votos recibidos: 3"));
    let votantes = t.obtener_votantes_eleccion_por_id(1).unwrap();
    assert_eq!(votantes.matches("Votos emitido: true").count(), 3);
    assert_eq!(votantes.matches("Votos emitido: false").count(), 2);
}

#[test]
fn voto_emitido_se_conserva() {
    let (mut t, admin) = eleccion_con_participantes();
    t.votar_a_candidato(cuenta(3), 1, 1, DURANTE).unwrap();
    t.crear_eleccion(admin, s(INICIO), s(FIN)).unwrap();
    t.procesar_usuarios_en_una_eleccion(admin, 1, true).unwrap_err();
    t.votar_a_candidato(cuenta(3), 1, 2, DURANTE).unwrap_err();
    t.finalizar_eleccion(admin, 1, DESPUES).unwrap();
    assert_eq!(
        t.obtener_votantes_eleccion_por_id(1),
        Ok(format!("ID: 1\n\n\nId usuario: {}\nVotos emitido: true", "03".repeat(32)))
    );
}

#[test]
fn usuario_aceptado_sigue_aceptado() {
    let (mut t, admin) = sistema_con_eleccion();
    t.registrarse(cuenta(5), s("E"), s("F"), s("9")).unwrap();
    t.procesar_siguiente_usuario_pendiente(admin, false).unwrap();
    t.desactivar_registro(admin).unwrap();
    t.transferir_administrador(admin, cuenta(8)).unwrap();
    assert_eq!(t.obtener_usuarios(), vec![cuenta(1), cuenta(2), cuenta(3), cuenta(4)]);
    assert_eq!(t.obtener_usuarios_rechazados(), vec![cuenta(5)]);
}
