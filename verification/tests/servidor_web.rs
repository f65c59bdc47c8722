use registro_web::config::{analizar_puerto, cargar_configuracion, ErrorConfiguracion};
use registro_web::formulario::{preparar_registro, PasoRegistro};
use registro_web::paginas::{mantenimiento, pagina_404, pantalla1, pantalla2, pantalla3};
use registro_web::registro::{consulta_insercion, crear_usuario, parametros_insercion, UsuarioForm};
use registro_web::rutas::{despachar, igual_str, Metodo, Ruta};
use registro_web::servidor::{atender, Accion};
use registro_web::MAX_CONEXIONES;

#[test]
fn rutas_definidas() {
    assert_eq!(despachar(&Metodo::Get, "/"), Ruta::Mantenimiento);
    assert_eq!(despachar(&Metodo::Get, "/pantalla1"), Ruta::Pantalla1);
    assert_eq!(despachar(&Metodo::Get, "/pantalla2"), Ruta::Pantalla2);
    assert_eq!(despachar(&Metodo::Get, "/pantalla3"), Ruta::Pantalla3);
    assert_eq!(despachar(&Metodo::Get, "/mantenimiento"), Ruta::Mantenimiento);
    assert_eq!(despachar(&Metodo::Post, "/crear_usuario"), Ruta::CrearUsuario);
}

#[test]
fn rutas_no_definidas() {
    assert_eq!(despachar(&Metodo::Get, "/nope"), Ruta::NoEncontrada);
    assert_eq!(despachar(&Metodo::Get, ""), Ruta::NoEncontrada);
    assert_eq!(despachar(&Metodo::Get, "/pantalla4"), Ruta::NoEncontrada);
    assert_eq!(despachar(&Metodo::Get, "/crear_usuario"), Ruta::NoEncontrada);
    assert_eq!(despachar(&Metodo::Post, "/"), Ruta::NoEncontrada);
    assert_eq!(despachar(&Metodo::Post, "/pantalla1"), Ruta::NoEncontrada);
    assert_eq!(despachar(&Metodo::Otro, "/"), Ruta::NoEncontrada);
    assert_eq!(despachar(&Metodo::Otro, "/crear_usuario"), Ruta::NoEncontrada);
}

#[test]
fn comparacion_de_cadenas() {
    assert!(igual_str("", ""));
    assert!(igual_str("/pantalla1", "/pantalla1"));
    assert!(!igual_str("/pantalla1", "/pantalla2"));
    assert!(!igual_str("/", "/pantalla1"));
    assert!(!igual_str("/pantalla1", "/"));
}

#[test]
fn paginas_estaticas_completas() {
    for r in [pantalla1(), pantalla2(), pantalla3(), mantenimiento()] {
        assert_eq!(r.estado, 200);
        assert_eq!(r.tipo_contenido, "text/html");
        assert!(!r.cuerpo.is_empty());
        assert!(r.cuerpo.contains("<html>"));
        assert!(r.ubicacion.is_none());
    }
    assert!(pantalla1().cuerpo.contains("Pantalla 1"));
    assert!(pantalla2().cuerpo.contains("Pantalla 2"));
    assert!(pantalla3().cuerpo.contains("Pantalla 3"));
    assert!(mantenimiento().cuerpo.contains("mantenimiento"));
}

#[test]
fn pagina_no_encontrada() {
    let r = pagina_404();
    assert_eq!(r.estado, 404);
    assert_eq!(r.tipo_contenido, "text/html");
    assert!(r.cuerpo.contains("no encontrada"));
    assert!(r.ubicacion.is_none());
}

#[test]
fn atencion_de_pantallas() {
    match atender(&Metodo::Get, "/pantalla2") {
        Accion::Responder(r) => {
            assert_eq!(r.estado, 200);
            assert!(r.cuerpo.contains("Pantalla 2"));
        }
        Accion::RegistrarUsuario => panic!("una pantalla no toca la base de datos"),
    }
    match atender(&Metodo::Get, "/") {
        Accion::Responder(r) => {
            assert_eq!(r.estado, 200);
            assert!(r.cuerpo.contains("mantenimiento"));
        }
        Accion::RegistrarUsuario => panic!("la raiz no toca la base de datos"),
    }
}

#[test]
fn atencion_de_todas_las_pantallas() {
    for camino in ["/", "/pantalla1", "/pantalla2", "/pantalla3", "/mantenimiento"] {
        match atender(&Metodo::Get, camino) {
            Accion::Responder(r) => {
                assert_eq!(r.estado, 200);
                assert_eq!(r.tipo_contenido, "text/html");
                assert!(!r.cuerpo.is_empty());
            }
            Accion::RegistrarUsuario => panic!("una pantalla no toca la base de datos"),
        }
    }
}

#[test]
fn pantallas_identicas_en_cada_solicitud() {
    let primera = pantalla1();
    let segunda = pantalla1();
    assert_eq!(primera.estado, segunda.estado);
    assert_eq!(primera.tipo_contenido, segunda.tipo_contenido);
    assert_eq!(primera.cuerpo, segunda.cuerpo);
    assert_eq!(primera.ubicacion, segunda.ubicacion);
}

#[test]
fn atencion_de_registro() {
    match atender(&Metodo::Post, "/crear_usuario") {
        Accion::RegistrarUsuario => {}
        Accion::Responder(_) => panic!("el registro requiere la base de datos"),
    }
}

#[test]
fn atencion_no_definida_es_404() {
    match atender(&Metodo::Get, "/nope") {
        Accion::Responder(r) => assert_eq!(r.estado, 404),
        Accion::RegistrarUsuario => panic!("una ruta desconocida no toca la base de datos"),
    }
    match atender(&Metodo::Otro, "/pantalla1") {
        Accion::Responder(r) => assert_eq!(r.estado, 404),
        Accion::RegistrarUsuario => panic!("un metodo desconocido no toca la base de datos"),
    }
}

#[test]
fn puertos_validos() {
    assert_eq!(analizar_puerto("8080"), Some(8080));
    assert_eq!(analizar_puerto("1"), Some(1));
    assert_eq!(analizar_puerto("0"), Some(0));
    assert_eq!(analizar_puerto("65535"), Some(65535));
    assert_eq!(analizar_puerto("070"), Some(70));
    assert_eq!(analizar_puerto("000008080"), Some(8080));
}

#[test]
fn puertos_invalidos() {
    assert_eq!(analizar_puerto(""), None);
    assert_eq!(analizar_puerto("abc"), None);
    assert_eq!(analizar_puerto("-1"), None);
    assert_eq!(analizar_puerto("+80"), None);
    assert_eq!(analizar_puerto("80a"), None);
    assert_eq!(analizar_puerto("8 0"), None);
    assert_eq!(analizar_puerto("65536"), None);
    assert_eq!(analizar_puerto("99999"), None);
    assert_eq!(analizar_puerto("99999999999999999999"), None);
    assert_eq!(analizar_puerto("65536abc"), None);
}

#[test]
fn configuracion_sin_url_es_fatal() {
    let r = cargar_configuracion(None, None);
    assert_eq!(r.err(), Some(ErrorConfiguracion::UrlFaltante));
    let r = cargar_configuracion(None, Some("8080".to_string()));
    assert_eq!(r.err(), Some(ErrorConfiguracion::UrlFaltante));
    let r = cargar_configuracion(None, Some("no numerico".to_string()));
    assert_eq!(r.err(), Some(ErrorConfiguracion::UrlFaltante));
}

#[test]
fn configuracion_puerto_predeterminado() {
    let r = cargar_configuracion(Some("postgres://localhost/base".to_string()), None);
    let c = r.ok().expect("la configuracion es valida");
    assert_eq!(c.url, "postgres://localhost/base");
    assert_eq!(c.puerto, 8080);
}

#[test]
fn configuracion_puerto_dado() {
    let r = cargar_configuracion(
        Some("postgres://localhost/base".to_string()),
        Some("9000".to_string()),
    );
    let c = r.ok().expect("la configuracion es valida");
    assert_eq!(c.puerto, 9000);
}

#[test]
fn configuracion_puerto_invalido_es_fatal() {
    let r = cargar_configuracion(
        Some("postgres://localhost/base".to_string()),
        Some("ochenta".to_string()),
    );
    assert_eq!(r.err(), Some(ErrorConfiguracion::PuertoInvalido));
    let r = cargar_configuracion(
        Some("postgres://localhost/base".to_string()),
        Some("65536".to_string()),
    );
    assert_eq!(r.err(), Some(ErrorConfiguracion::PuertoInvalido));
}

#[test]
fn consulta_parametrizada() {
    assert_eq!(
        consulta_insercion(),
        "INSERT INTO usuarios (usuario, email, password) VALUES ($1, $2, $3)"
    );
}

#[test]
fn parametros_en_orden() {
    let f = UsuarioForm {
        usuario: "ana".to_string(),
        email: "ana@ejemplo.com".to_string(),
        password: "secreta".to_string(),
    };
    let p = parametros_insercion(&f);
    assert_eq!(p, vec!["ana", "ana@ejemplo.com", "secreta"]);
}

#[test]
fn formulario_completo_se_inserta() {
    match preparar_registro("usuario=ana&email=ana%40ejemplo.com&password=secreta") {
        PasoRegistro::Insertar(f) => {
            assert_eq!(f.usuario, "ana");
            assert_eq!(f.email, "ana@ejemplo.com");
            assert_eq!(f.password, "secreta");
        }
        PasoRegistro::Rechazar(_) => panic!("un formulario completo se inserta"),
    }
}

#[test]
fn formulario_decodifica_escapes() {
    match preparar_registro("usuario=a+b&email=c%20d&password=x%2By") {
        PasoRegistro::Insertar(f) => {
            assert_eq!(f.usuario, "a b");
            assert_eq!(f.email, "c d");
            assert_eq!(f.password, "x+y");
        }
        PasoRegistro::Rechazar(_) => panic!("un formulario completo se inserta"),
    }
}

#[test]
fn formulario_toma_el_orden_sin_importar() {
    match preparar_registro("password=p&usuario=u&email=e") {
        PasoRegistro::Insertar(f) => {
            assert_eq!(f.usuario, "u");
            assert_eq!(f.email, "e");
            assert_eq!(f.password, "p");
        }
        PasoRegistro::Rechazar(_) => panic!("un formulario completo se inserta"),
    }
}

#[test]
fn formulario_sin_campo_es_400() {
    for cuerpo in [
        "usuario=ana&email=ana%40ejemplo.com",
        "usuario=ana&password=secreta",
        "email=e&password=p",
        "",
        "otro=valor",
    ] {
        match preparar_registro(cuerpo) {
            PasoRegistro::Rechazar(r) => {
                assert_eq!(r.estado, 400);
                assert_eq!(r.cuerpo, "Formulario invalido");
            }
            PasoRegistro::Insertar(_) => {
                panic!("a un formulario incompleto no le corresponde insercion")
            }
        }
    }
}

#[test]
fn formulario_escape_invalido_pasa_literal() {
    // El decodificador es permisivo: un escape invalido queda tal cual.
    match preparar_registro("usuario=%zz&email=e&password=p") {
        PasoRegistro::Insertar(f) => assert_eq!(f.usuario, "%zz"),
        PasoRegistro::Rechazar(_) => panic!("un formulario completo se inserta"),
    }
}

#[test]
fn registro_exitoso_redirige() {
    let r = crear_usuario(true);
    assert_eq!(r.estado, 302);
    assert_eq!(r.ubicacion.as_deref(), Some("/pantalla1"));
    assert!(r.cuerpo.is_empty());
}

#[test]
fn registro_fallido_es_500_generico() {
    let r = crear_usuario(false);
    assert_eq!(r.estado, 500);
    assert_eq!(r.cuerpo, "Error al registrar usuario");
    assert!(r.ubicacion.is_none());
    // El detalle del error de la base de datos no es entrada de la funcion,
    // de modo que ningun detalle puede aparecer en el cuerpo.
}

#[test]
fn tope_de_conexiones() {
    assert_eq!(MAX_CONEXIONES, 5);
}
