//! Configuration loader: a required database connection string and an
//! optional listen port, both taken from the environment by the binary and
//! handed here as plain optional strings. A missing connection string and an
//! invalid port value are fatal startup errors.

use vstd::prelude::*;

verus! {

/// The fatal startup errors of the configuration loader.
#[derive(Debug, PartialEq, Eq, Structural, Clone, Copy)]
pub enum ErrorConfiguracion {
    /// The database connection string is absent from the environment.
    UrlFaltante,
    /// The listen port value does not parse as a 16-bit unsigned integer.
    PuertoInvalido,
}

/// The validated startup configuration.
pub struct Configuracion {
    pub url: String,
    pub puerto: u16,
}

/// Mathematical model of a validated configuration.
pub struct VistaConfiguracion {
    pub url: Seq<char>,
    pub puerto: int,
}

impl View for Configuracion {
    type V = VistaConfiguracion;

    open spec fn view(&self) -> VistaConfiguracion {
        VistaConfiguracion { url: self.url@, puerto: self.puerto as int }
    }
}

/// The default listen port, used when the environment gives none.
pub const PUERTO_PREDETERMINADO: u16 = 8080;

pub open spec fn es_digito(c: char) -> bool {
    48 <= c as u32 <= 57
}

pub open spec fn valor_digito(c: char) -> int {
    c as u32 - 48
}

/// The value of a decimal digit string, most significant digit first.
pub open spec fn valor_decimal(s: Seq<char>) -> int
    decreases s.len(),
{
    if s.len() == 0 {
        0
    } else {
        10 * valor_decimal(s.drop_last()) + valor_digito(s.last())
    }
}

/// A port value is valid when it is a non-empty string of decimal digits
/// whose value fits in 16 bits. Leading zeros are allowed.
pub open spec fn puerto_valido(s: Seq<char>) -> bool {
    &&& s.len() > 0
    &&& forall|i: int| 0 <= i < s.len() ==> es_digito(s[i])
    &&& valor_decimal(s) <= 65535
}

proof fn lema_valor_no_negativo(s: Seq<char>)
    requires
        forall|i: int| 0 <= i < s.len() ==> es_digito(s[i]),
    ensures
        valor_decimal(s) >= 0,
    decreases s.len(),
{
    if s.len() > 0 {
        assert(forall|i: int| 0 <= i < s.drop_last().len() ==> es_digito(s.drop_last()[i]));
        lema_valor_no_negativo(s.drop_last());
    }
}

/// Appending digits never decreases the value of a digit string: the value of
/// a prefix bounds the value of the whole from below.
proof fn lema_valor_creciente(s: Seq<char>, j: int, k: int)
    requires
        0 <= j <= k <= s.len(),
        forall|i: int| 0 <= i < k ==> es_digito(s[i]),
    ensures
        valor_decimal(s.subrange(0, j)) <= valor_decimal(s.subrange(0, k)),
    decreases k - j,
{
    if j < k {
        let previo = s.subrange(0, k - 1);
        let actual = s.subrange(0, k);
        assert(actual.drop_last() =~= previo);
        assert(forall|i: int| 0 <= i < previo.len() ==> es_digito(previo[i]));
        lema_valor_no_negativo(previo);
        assert(valor_decimal(actual) == 10 * valor_decimal(previo) + valor_digito(actual.last()));
        assert(valor_digito(actual.last()) >= 0);
        lema_valor_creciente(s, j, k - 1);
    }
}

/// Parses a decimal 16-bit port number. Returns the value exactly when the
/// string is a valid port, and nothing otherwise.
pub fn analizar_puerto(s: &str) -> (r: Option<u16>)
    ensures
        r is Some <==> puerto_valido(s@),
        r is Some ==> r->Some_0 == valor_decimal(s@),
{
    let n = s.unicode_len();
    if n == 0 {
        return None;
    }
    let mut v: u32 = 0;
    let mut i: usize = 0;
    while i < n
        invariant
            n == s@.len(),
            0 < n,
            i <= n,
            forall|j: int| 0 <= j < i ==> es_digito(s@[j]),
            v == valor_decimal(s@.subrange(0, i as int)),
            v <= 65535,
        decreases n - i,
    {
        let c = s.get_char(i);
        let u = c as u32;
        if u < 48 || u > 57 {
            return None;
        }
        let d = u - 48;
        proof {
            assert(s@.subrange(0, (i + 1) as int).drop_last() =~= s@.subrange(0, i as int));
            assert(s@.subrange(0, (i + 1) as int).last() == s@[i as int]);
        }
        if v > 6553 || (v == 6553 && d > 5) {
            // The value of the digits read so far already exceeds 65535; if
            // the remaining characters are all digits the whole string is out
            // of range, and otherwise it is not numeric.
            let ghost corte: int = i + 1;
            i = i + 1;
            while i < n
                invariant
                    n == s@.len(),
                    corte <= i <= n,
                    forall|j: int| 0 <= j < corte ==> es_digito(s@[j]),
                    valor_decimal(s@.subrange(0, corte)) > 65535,
                    forall|j: int| corte <= j < i ==> es_digito(s@[j]),
                decreases n - i,
            {
                let c2 = s.get_char(i);
                let u2 = c2 as u32;
                if u2 < 48 || u2 > 57 {
                    return None;
                }
                i = i + 1;
            }
            proof {
                lema_valor_creciente(s@, corte, n as int);
                assert(s@.subrange(0, n as int) =~= s@);
            }
            return None;
        }
        v = v * 10 + d;
        i = i + 1;
    }
    proof {
        assert(s@.subrange(0, n as int) =~= s@);
    }
    Some(v as u16)
}

/// Mathematical model of configuration loading: the connection string is
/// required, the port is optional with default 8080, and an unparsable port
/// is an error. The absent connection string is reported first.
pub open spec fn modelo_configuracion(
    url: Option<Seq<char>>,
    puerto: Option<Seq<char>>,
) -> Result<VistaConfiguracion, ErrorConfiguracion> {
    match url {
        None => Err(ErrorConfiguracion::UrlFaltante),
        Some(u) => match puerto {
            None => Ok(
                VistaConfiguracion { url: u, puerto: PUERTO_PREDETERMINADO as int },
            ),
            Some(p) => if puerto_valido(p) {
                Ok(VistaConfiguracion { url: u, puerto: valor_decimal(p) })
            } else {
                Err(ErrorConfiguracion::PuertoInvalido)
            },
        },
    }
}

/// The model of an already computed loading result.
pub open spec fn vista_resultado(
    r: Result<Configuracion, ErrorConfiguracion>,
) -> Result<VistaConfiguracion, ErrorConfiguracion> {
    match r {
        Ok(c) => Ok(c@),
        Err(e) => Err(e),
    }
}

/// Validates the raw environment values. Fails exactly when the connection
/// string is absent or the port value is present and invalid.
pub fn cargar_configuracion(url: Option<String>, puerto: Option<String>) -> (r: Result<
    Configuracion,
    ErrorConfiguracion,
>)
    ensures
        vista_resultado(r) == modelo_configuracion(url.deep_view(), puerto.deep_view()),
{
    let direccion = match url {
        Some(u) => u,
        None => {
            return Err(ErrorConfiguracion::UrlFaltante);
        },
    };
    let numero_puerto: u16 = match puerto {
        None => PUERTO_PREDETERMINADO,
        Some(p) => match analizar_puerto(p.as_str()) {
            Some(v) => v,
            None => {
                return Err(ErrorConfiguracion::PuertoInvalido);
            },
        },
    };
    Ok(Configuracion { url: direccion, puerto: numero_puerto })
}

/// Startup without a database connection string fails, whatever the port
/// value says: the process can never reach the point of binding a socket.
pub proof fn ley_url_requerida(puerto: Option<Seq<char>>)
    ensures
        modelo_configuracion(None, puerto) == Err::<VistaConfiguracion, _>(
            ErrorConfiguracion::UrlFaltante,
        ),
{
}

/// When the environment names no port, the server listens on 8080.
pub proof fn ley_puerto_predeterminado(url: Seq<char>)
    ensures
        modelo_configuracion(Some(url), None) == Ok::<_, ErrorConfiguracion>(
            VistaConfiguracion { url: url, puerto: 8080 },
        ),
{
}

} // verus!
