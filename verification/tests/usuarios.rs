use trabajo_final::{AccountId, TrabajoFinal};

fn cuenta(n: u8) -> AccountId {
    AccountId([n; 32])
}

fn s(t: &str) -> String {
    String::from(t)
}

const NO_ADMIN: &str = "No eres el administrador.";

fn sistema_con_registro() -> (TrabajoFinal, AccountId) {
    let admin = cuenta(0);
    let mut t = TrabajoFinal::new(admin);
    assert!(t.activar_registro(admin).is_ok());
    (t, admin)
}

#[test]
fn nuevo_sistema_vacio() {
    let t = TrabajoFinal::new(cuenta(9));
    assert!(t.obtener_usuarios().is_empty());
    assert!(t.obtener_usuarios_pendientes().is_empty());
    assert!(t.obtener_usuarios_rechazados().is_empty());
    assert!(t.obtener_ids_elecciones().is_empty());
}

#[test]
fn registro_desactivado_rechaza() {
    let mut t = TrabajoFinal::new(cuenta(0));
    assert_eq!(
        t.registrarse(cuenta(1), s("Ana"), s("Perez"), s("123")),
        Err(s("El registro todavía no está activado."))
    );
    assert!(t.obtener_usuarios_pendientes().is_empty());
}

#[test]
fn activar_y_desactivar_registro() {
    let admin = cuenta(0);
    let mut t = TrabajoFinal::new(admin);
    assert_eq!(t.activar_registro(cuenta(1)), Err(s(NO_ADMIN)));
    assert_eq!(t.desactivar_registro(admin), Err(s("El registro ya está desactivado.")));
    assert_eq!(t.activar_registro(admin), Ok(s("Se activó el registro para los usuarios.")));
    assert_eq!(t.activar_registro(admin), Err(s("El registro ya está activado.")));
    assert_eq!(t.desactivar_registro(cuenta(1)), Err(s(NO_ADMIN)));
    assert_eq!(t.desactivar_registro(admin), Ok(s("Se desactivó el registro para los usuarios.")));
    assert_eq!(
        t.registrarse(cuenta(1), s("Ana"), s("Perez"), s("123")),
        Err(s("El registro todavía no está activado."))
    );
}

#[test]
fn administrador_no_se_registra() {
    let (mut t, admin) = sistema_con_registro();
    assert_eq!(
        t.registrarse(admin, s("Ana"), s("Perez"), s("123")),
        Err(s("Eres el administrador, no puedes registrarte."))
    );
}

#[test]
fn registro_queda_pendiente() {
    let (mut t, _) = sistema_con_registro();
    assert_eq!(
        t.registrarse(cuenta(1), s("Ana"), s("Perez"), s("123")),
        Ok(s("Registro exitoso. Se te añadió en la cola de usuarios pendientes."))
    );
    assert_eq!(t.obtener_usuarios_pendientes(), vec![cuenta(1)]);
    assert_eq!(
        t.registrarse(cuenta(1), s("Ana"), s("Perez"), s("123")),
        Err(s("Ya estás en la cola de usuarios pendientes."))
    );
    assert_eq!(t.obtener_usuarios_pendientes(), vec![cuenta(1)]);
}

#[test]
fn informacion_del_siguiente_pendiente() {
    let (mut t, admin) = sistema_con_registro();
    assert_eq!(
        t.obtener_informacion_siguiente_usuario_pendiente(admin),
        Err(s("No hay usuarios pendientes."))
    );
    t.registrarse(cuenta(1), s("Ana"), s("Perez"), s("123")).unwrap();
    t.registrarse(cuenta(2), s("Luis"), s("Gomez"), s("456")).unwrap();
    assert_eq!(
        t.obtener_informacion_siguiente_usuario_pendiente(cuenta(1)),
        Err(s(NO_ADMIN))
    );
    assert_eq!(
        t.obtener_informacion_siguiente_usuario_pendiente(admin),
        Ok(s("Nombre: Ana\nApellido: Perez\nDNI: 123"))
    );
}

#[test]
fn aceptar_usuario_pendiente() {
    let (mut t, admin) = sistema_con_registro();
    t.registrarse(cuenta(1), s("Ana"), s("Perez"), s("123")).unwrap();
    assert_eq!(t.procesar_siguiente_usuario_pendiente(cuenta(1), true), Err(s(NO_ADMIN)));
    assert_eq!(
        t.procesar_siguiente_usuario_pendiente(admin, true),
        Ok(s("Usuario agregado exitosamente."))
    );
    assert_eq!(t.obtener_usuarios(), vec![cuenta(1)]);
    assert!(t.obtener_usuarios_pendientes().is_empty());
    assert_eq!(
        t.registrarse(cuenta(1), s("Ana"), s("Perez"), s("123")),
        Err(s("Ya estás registrado como usuario."))
    );
    assert_eq!(
        t.procesar_siguiente_usuario_pendiente(admin, true),
        Err(s("No hay usuarios pendientes."))
    );
}

#[test]
fn rechazo_es_definitivo() {
    let (mut t, admin) = sistema_con_registro();
    t.registrarse(cuenta(2), s("Luis"), s("Gomez"), s("456")).unwrap();
    assert_eq!(
        t.procesar_siguiente_usuario_pendiente(admin, false),
        Ok(s("Usuario rechazado exitosamente."))
    );
    assert_eq!(t.obtener_usuarios_rechazados(), vec![cuenta(2)]);
    assert!(t.obtener_usuarios().is_empty());
    assert_eq!(
        t.registrarse(cuenta(2), s("Luis"), s("Gomez"), s("456")),
        Err(s("Tu solicitud de registro ya fue rechazada."))
    );
    assert!(t.obtener_usuarios_pendientes().is_empty());
}

#[test]
fn cola_en_orden_de_llegada() {
    let (mut t, admin) = sistema_con_registro();
    for n in 1..=3u8 {
        t.registrarse(cuenta(n), s("N"), s("A"), s("D")).unwrap();
    }
    assert_eq!(t.obtener_usuarios_pendientes(), vec![cuenta(1), cuenta(2), cuenta(3)]);
    t.procesar_siguiente_usuario_pendiente(admin, true).unwrap();
    t.procesar_siguiente_usuario_pendiente(admin, false).unwrap();
    assert_eq!(t.obtener_usuarios(), vec![cuenta(1)]);
    assert_eq!(t.obtener_usuarios_rechazados(), vec![cuenta(2)]);
    assert_eq!(t.obtener_usuarios_pendientes(), vec![cuenta(3)]);
}

#[test]
fn datos_de_usuarios_por_id() {
    let (mut t, admin) = sistema_con_registro();
    t.registrarse(cuenta(1), s("Ana"), s("Perez"), s("123")).unwrap();
    t.registrarse(cuenta(2), s("Luis"), s("Gomez"), s("456")).unwrap();
    t.registrarse(cuenta(3), s("Eva"), s("Diaz"), s("789")).unwrap();
    assert_eq!(
        t.obtener_datos_usuario_pendiente_por_id(cuenta(2)),
        Ok(s("Nombre: Luis\nApellido: Gomez\nDNI: 456"))
    );
    t.procesar_siguiente_usuario_pendiente(admin, true).unwrap();
    t.procesar_siguiente_usuario_pendiente(admin, false).unwrap();
    assert_eq!(
        t.obtener_datos_usuario_por_id(cuenta(1)),
        Ok(s("Nombre: Ana\nApellido: Perez\nDNI: 123"))
    );
    assert_eq!(
        t.obtener_datos_usuario_rechazado_por_id(cuenta(2)),
        Ok(s("Nombre: Luis\nApellido: Gomez\nDNI: 456"))
    );
    assert_eq!(t.obtener_datos_usuario_por_id(cuenta(2)), Err(s("No hay usuarios con tal id.")));
    assert_eq!(
        t.obtener_datos_usuario_rechazado_por_id(cuenta(1)),
        Err(s("No hay usuarios con tal id."))
    );
    assert_eq!(
        t.obtener_datos_usuario_pendiente_por_id(cuenta(1)),
        Err(s("No hay usuarios con tal id."))
    );
    assert_eq!(
        t.obtener_datos_usuario_pendiente_por_id(cuenta(3)),
        Ok(s("Nombre: Eva\nApellido: Diaz\nDNI: 789"))
    );
}

#[test]
fn transferir_administrador() {
    let (mut t, admin) = sistema_con_registro();
    let nuevo = cuenta(7);
    assert_eq!(t.transferir_administrador(cuenta(1), nuevo), Err(s(NO_ADMIN)));
    assert_eq!(
        t.transferir_administrador(admin, nuevo),
        Ok(s("Se transfirió el rol de administrador correctamente."))
    );
    assert_eq!(t.desactivar_registro(admin), Err(s(NO_ADMIN)));
    assert_eq!(t.desactivar_registro(nuevo), Ok(s("Se desactivó el registro para los usuarios.")));
}

#[test]
fn antiguo_administrador_puede_registrarse() {
    let (mut t, admin) = sistema_con_registro();
    t.transferir_administrador(admin, cuenta(7)).unwrap();
    assert_eq!(
        t.registrarse(admin, s("Ex"), s("Admin"), s("1")),
        Ok(s("Registro exitoso. Se te añadió en la cola de usuarios pendientes."))
    );
    assert_eq!(
        t.registrarse(cuenta(7), s("Nuevo"), s("Admin"), s("2")),
        Err(s("Eres el administrador, no puedes registrarte."))
    );
}
