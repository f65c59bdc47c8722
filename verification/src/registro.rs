//! The user registration handler's decision logic. The binary decodes the
//! form, executes the parameterized insert this module prescribes, and hands
//! the outcome back; this module computes the response the client sees.

use vstd::prelude::*;
use crate::respuesta::{Respuesta, VistaRespuesta};

verus! {

/// The three text fields of the registration form.
pub struct UsuarioForm {
    pub usuario: String,
    pub email: String,
    pub password: String,
}

/// Mathematical model of a registration form.
pub struct VistaFormulario {
    pub usuario: Seq<char>,
    pub email: Seq<char>,
    pub password: Seq<char>,
}

impl View for UsuarioForm {
    type V = VistaFormulario;

    open spec fn view(&self) -> VistaFormulario {
        VistaFormulario {
            usuario: self.usuario@,
            email: self.email@,
            password: self.password@,
        }
    }
}

pub open spec fn vista_consulta_insercion() -> Seq<char> {
    "INSERT INTO usuarios (usuario, email, password) VALUES ($1, $2, $3)"@
}

/// The one SQL statement this system executes: a parameterized insert. The
/// form values are never spliced into the statement text; they travel only
/// as positional parameters.
pub fn consulta_insercion() -> (r: &'static str)
    ensures
        r@ == vista_consulta_insercion(),
{
    "INSERT INTO usuarios (usuario, email, password) VALUES ($1, $2, $3)"
}

/// The positional parameters the insert statement binds, in order:
/// username, email, password.
pub open spec fn modelo_parametros(f: VistaFormulario) -> Seq<Seq<char>> {
    seq![f.usuario, f.email, f.password]
}

/// The positional parameters of the insert, in the order the statement
/// binds them: username, email, password. Each registration writes exactly
/// these three values, once.
pub fn parametros_insercion(formulario: &UsuarioForm) -> (r: Vec<String>)
    ensures
        r.deep_view() == modelo_parametros(formulario@),
{
    let mut parametros: Vec<String> = Vec::new();
    parametros.push(formulario.usuario.clone());
    parametros.push(formulario.email.clone());
    parametros.push(formulario.password.clone());
    proof {
        assert(parametros.deep_view() =~= modelo_parametros(formulario@));
    }
    parametros
}

/// The response the client sees for each outcome of the insert: a redirect
/// to the first screen on success, a generic server error otherwise. The
/// database's error detail is not an input of this function, so no outcome
/// can place it in the response.
pub open spec fn modelo_registro(exito: bool) -> VistaRespuesta {
    if exito {
        VistaRespuesta {
            estado: 302,
            tipo_contenido: ""@,
            cuerpo: ""@,
            ubicacion: Some("/pantalla1"@),
        }
    } else {
        VistaRespuesta {
            estado: 500,
            tipo_contenido: "text/plain"@,
            cuerpo: "Error al registrar usuario"@,
            ubicacion: None,
        }
    }
}

/// Answers a registration request once the insert has run: on success an
/// HTTP 302 redirect to `/pantalla1` with an empty body, on failure an HTTP
/// 500 whose body is a fixed generic message.
pub fn crear_usuario(exito: bool) -> (r: Respuesta)
    ensures
        r@ == modelo_registro(exito),
{
    if exito {
        Respuesta {
            estado: 302,
            tipo_contenido: "".to_owned(),
            cuerpo: "".to_owned(),
            ubicacion: Some("/pantalla1".to_owned()),
        }
    } else {
        Respuesta {
            estado: 500,
            tipo_contenido: "text/plain".to_owned(),
            cuerpo: "Error al registrar usuario".to_owned(),
            ubicacion: None,
        }
    }
}

pub open spec fn modelo_formulario_invalido() -> VistaRespuesta {
    VistaRespuesta {
        estado: 400,
        tipo_contenido: "text/plain"@,
        cuerpo: "Formulario invalido"@,
        ubicacion: None,
    }
}

/// The client-error response to a malformed or incomplete form: HTTP 400
/// with a fixed plain-text body. No insert is attempted for such a request.
pub fn formulario_invalido() -> (r: Respuesta)
    ensures
        r@ == modelo_formulario_invalido(),
{
    Respuesta {
        estado: 400,
        tipo_contenido: "text/plain".to_owned(),
        cuerpo: "Formulario invalido".to_owned(),
        ubicacion: None,
    }
}

/// A successful registration always redirects to the first screen, and a
/// failed one always answers HTTP 500 with the same fixed, non-empty body:
/// the client-facing message does not vary with the database's error, whose
/// detail reaches only the operator-facing log.
pub proof fn ley_respuesta_registro()
    ensures
        modelo_registro(true).estado == 302,
        modelo_registro(true).ubicacion == Some("/pantalla1"@),
        modelo_registro(false).estado == 500,
        modelo_registro(false).cuerpo == "Error al registrar usuario"@,
        modelo_registro(false).cuerpo.len() > 0,
        modelo_registro(false).ubicacion is None,
{
    reveal_strlit("Error al registrar usuario");
}

} // verus!
