use trabajo_final::cuenta::hex_de_cuenta;
use trabajo_final::texto::{texto_bool, texto_u64};
use trabajo_final::{AccountId, Eleccion, ESTADO_ELECCION, TIPO_DE_USUARIO};

#[test]
fn hex_de_una_cuenta() {
    let mut bytes = [0u8; 32];
    bytes[0] = 0xab;
    bytes[1] = 0x0f;
    bytes[31] = 0x10;
    let texto = hex_de_cuenta(&AccountId(bytes));
    assert_eq!(texto.len(), 64);
    assert!(texto.starts_with("ab0f00"));
    assert!(texto.ends_with("0010"));
}

#[test]
fn numeros_en_decimal() {
    assert_eq!(texto_u64(0), "0");
    assert_eq!(texto_u64(7), "7");
    assert_eq!(texto_u64(10), "10");
    assert_eq!(texto_u64(1234567890), "1234567890");
    assert_eq!(texto_u64(u64::MAX), "18446744073709551615");
}

#[test]
fn palabras_booleanas() {
    assert_eq!(texto_bool(true), "true");
    assert_eq!(texto_bool(false), "false");
}

#[test]
fn cuentas_iguales_por_sus_bytes() {
    assert_eq!(AccountId([3; 32]), AccountId([3; 32]));
    let mut b = [3u8; 32];
    b[31] = 4;
    assert_ne!(AccountId([3; 32]), AccountId(b));
}

#[test]
fn eleccion_procesa_su_cola() {
    let mut e = Eleccion::nueva(1, 10, 20);
    assert_eq!(e.estado(), ESTADO_ELECCION::CERRADA);
    assert_eq!(e.procesar_siguiente_usuario_pendiente(true), Err(String::from("No hay usuarios pendientes.")));
    e.agregar_pendiente(AccountId([1; 32]), TIPO_DE_USUARIO::CANDIDATO);
    e.agregar_pendiente(AccountId([2; 32]), TIPO_DE_USUARIO::VOTANTE);
    e.agregar_pendiente(AccountId([3; 32]), TIPO_DE_USUARIO::VOTANTE);
    assert_eq!(e.procesar_siguiente_usuario_pendiente(true), Ok(String::from("Usuario agregado exitosamente.")));
    assert_eq!(e.procesar_siguiente_usuario_pendiente(true), Ok(String::from("Usuario agregado exitosamente.")));
    assert_eq!(e.procesar_siguiente_usuario_pendiente(false), Ok(String::from("Usuario rechazado exitosamente.")));
    assert_eq!(e.candidatos()[0].id, 1);
    assert!(e.es_candidato(&AccountId([1; 32])));
    assert!(e.es_votante(&AccountId([2; 32])));
    assert!(e.es_usuario_rechazado(&AccountId([3; 32])));
    assert!(!e.es_usuario_pendiente(&AccountId([3; 32])));
}

#[test]
fn eleccion_cuenta_votos() {
    let mut e = Eleccion::nueva(1, 10, 20);
    e.agregar_pendiente(AccountId([1; 32]), TIPO_DE_USUARIO::CANDIDATO);
    e.agregar_pendiente(AccountId([2; 32]), TIPO_DE_USUARIO::VOTANTE);
    e.procesar_siguiente_usuario_pendiente(true).unwrap();
    e.procesar_siguiente_usuario_pendiente(true).unwrap();
    assert_eq!(e.votar_candidato(AccountId([9; 32]), 1), Err(String::from("No estás registrado en la elección.")));
    assert_eq!(e.votar_candidato(AccountId([2; 32]), 2), Err(String::from("No existe un candidato con este id.")));
    assert_eq!(e.votar_candidato(AccountId([2; 32]), 1), Ok(String::from("Voto emitido exitosamente.")));
    assert_eq!(
        e.votar_candidato(AccountId([2; 32]), 1),
        Err(String::from("No se realizó el voto porque ya votaste anteriormente."))
    );
    assert_eq!(e.candidatos()[0].votos_totales, 1);
    assert!(e.votantes()[0].voto_emitido);
    assert!(e.obtener_informacion_candidato(1).is_some());
    assert!(e.obtener_informacion_candidato(2).is_none());
}
