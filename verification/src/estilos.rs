use vstd::prelude::*;
use crate::config::{nombre_mayusculas, Mayusculas};
use crate::texto::contiene_spec;

verus! {

/// The end of the style sheet of the text inputs, after its rounded border.
pub const RESTO_ENTRADA: &'static str = "
      border: 1px solid transparent;
      padding: 0.6em 1.2em;
      font-size: 1em;
      font-weight: 500;
      font-family: inherit;
      color: #0f0f0f;
      background-color: #ffffff;
      transition: border-color 0.25s;
      box-shadow: 0 2px 2px rgba(0, 0, 0, 0.2);
    }
  ";

/// The style sheet of the windows before the rules of capitalisation.
pub const ESTILO_ANTES: &'static str = "
        :root {
  font-family: Inter, Avenir, Helvetica, Arial, sans-serif;
  font-size: 16px;
  line-height: 24px;
  font-weight: 400;

  color: #0f0f0f;
  background-color: #f9f9f9;

  font-synthesis: none;
  text-rendering: optimizeLegibility;
  -webkit-font-smoothing: antialiased;
  -moz-osx-font-smoothing: grayscale;
  -webkit-text-size-adjust: 100%;
  -webkit-user-select: none;
  user-select: none;
}
input,
button {
  outline: none;
}
input:disabled {
  -webkit-user-select: none;
  user-select: none;
}
      input[type=number] {
  appearance: textfield;
  -moz-appearance: textfield;

  &::-webkit-outer-spin-button,
  &::-webkit-inner-spin-button {
    -webkit-appearance: none;
    margin: 0;
  }
}
input,
button,
select,
.a-boton {
  border-radius: 8px;
  border: 1px solid transparent;
  padding: 0.6em 1.2em;
  font-size: 1em;
  font-weight: 500;
  font-family: inherit;
  color: #0f0f0f;
  background-color: #ffffff;
  transition: border-color 0.25s;
  box-shadow: 0 2px 2px rgba(0, 0, 0, 0.2);
}
form {
  display: grid;
  grid-template-columns: 40% 60%;

  & label {
    grid-column-start: 1;
  }

  & input {
    grid-column-start: 2;
  }

  &.pago {
    border-radius: 0.5px;
    grid-template-columns: 30% 50% 20%;

    & input {
      grid-column-start: 1;
      padding: 8px 10px;
    }

    & select {
      grid-column-start: 2;
      box-sizing: border-box;
      padding: 0 3px;
    }

    & input[type=submit],
    & input[type=button] {
      grid-column-start: 3;
      padding: 0 3px;
    }
  }
}

#menu-image button {
  display: inline-block;
  align-self: flex-start;
  width: 5%;
}

#menu-image button img {
  position: relative;
}

#menu-image {
  width: fit-content;
  height: fit-content;

}

#tabla-productos {
  height: fit-content;
}

#tabla-productos tr {
  max-height: 2em;
}

#tabla-productos tr:hover {
  background-color: #666;
}

.confirm-body {
  display: flex;
  flex-direction: column;
  align-items: center;

  & section {
    display: inline-block;

    & button {
      width: 5em;
    }
  }
}

.contenedor {
  display: block;
  position: relative;
  padding-left: 35px;
  margin-bottom: 12px;
  cursor: pointer;
  font-size: 22px;
  -webkit-user-select: none;
  -moz-user-select: none;
  -ms-user-select: none;
  user-select: none;

  & input {
    position: absolute;
    opacity: 0;
    cursor: pointer;
    height: 0;
    width: 0;
  }

  & .checkmark:after {
    left: 9px;
    top: 5px;
    width: 5px;
    height: 10px;
    border: solid white;
    border-width: 0 3px 3px 0;
    -webkit-transform: rotate(45deg);
    -ms-transform: rotate(45deg);
    transform: rotate(45deg);
  }
}

.checkmark {
  position: absolute;
  top: 8px;
  left: 0;
  height: 25px;
  width: 25px;
  background-color: #eee;

  &:after {
    content: '';
    position: absolute;
    display: none;
  }
}

.contenedor input:checked~.checkmark:after {
  display: block;
}

.contenedor:hover input~.checkmark {
  background-color: #ccc;
}

.contenedor input:checked~.checkmark {
  background-color: #2196F3;
}

.articulo {
  display: grid;
  grid-template-columns: auto 180px 80px 80px 80px;
  border: solid 1px #6f6f6f;
  border-radius: 10px;
  box-shadow: 3px 2px rgba(0, 0, 0, 0.2);
  padding-left: 10px;
}

#cuadro-principal .articulo:first-of-type {
  border-radius: 0px;

  & section,
  &.cantidad {
    border-right: solid 1px #6f6f6f;
    display: block;

  }

  & p:is(p) {
    text-align: center;
    margin: auto 0;
  }

  & .monto+section {
    grid-column-start: 4;
    grid-column-end: 6;
  }
}

.articulo p {
  margin: 5px 0;
  overflow-x: auto;
}

.descripcion {
  grid-column-start: 1;
  overflow-x: auto;
}



.cantidad button,
.cantidad p,
#borrar .button {
  margin: auto 5px;
}

.monto {
  grid-column-start: 3;
  text-align: end;
}

.monto+section {
  text-align: end;
}

.articulo section {
  padding: 5px;
}



#barra-de-opciones {
  width: auto;
  display: none;
  flex-direction: column;
  border-radius: 5px;
  background-color: #0000;
  position: absolute;
}

#barra-de-opciones.visible {
  display: inline-flex;
}

#header {
  display: flex;
  flex-direction: row;
  justify-content: space-between;
}

.container {
  margin: 0;
  padding: 1vh;
  display: flex;
  flex-direction: column;
  justify-content: center;
  text-align: center;
}



.boton {
  height: 2.6em;
  padding: 0.4em;
  will-change: filter;
  transition: 0.5s;
  background-color: #fafafa;
  border-radius: 8px;
  border: 1px;
  box-sizing: border-box;
}

@keyframes mov-error {
  0% {}

  25% {
    transform: translateY(3px);
  }

  50% {
    transform: translateY(0px);
  }

  75% {
    transform: translateY(-3px);
  }
}

.error {
  filter: drop-shadow(0px 0px 0px red);

  -webkit-animation: mov-error 0.2s infinite;
  -moz-animation: mov-error 0.2s infinite;
  -o-animation: mov-error 0.2s infinite;
  animation: mov-error 0.2s infinite;
}

.focuseado {
  border: solid 2px white;
  border-radius: 3px;

}





.v-actual {
  transform: scale(1.3);
}

#productos {
  gap: 5px;
  max-height: 93%;
  border-bottom: solid 1px #6f6f6f;
  overflow-y: scroll;
  -ms-overflow-style: none;
  scrollbar-width: none;

  &::-webkit-scrollbar {
    display: none;
  }
}


#cuadro-principal section {
  display: flex;
  flex-direction: column;

  &#cuadro-venta {
    border: solid 1px #6f6f6f;
    width: 99%;
    height: 78svh;

    & .focuseable {
      border: solid 1px #535bf2;

      &.not-focused {
        border-color: #6F6F6F;
        filter: blur(2px);
        transform: scale(0.99);
      }
    }
  }
}


.logo {
  height: 6em;
  padding: 1.5em;
  will-change: filter;
  transition: 0.75s;
}

.logo.tauri:hover {
  filter: drop-shadow(0 0 2em #24c8db);
}

.row {
  display: flex;
  justify-content: center;
}

a {
  font-weight: 500;
  color: #646cff;
  text-decoration: inherit;
}

table,
th,
td {
  border-collapse: collapse;
}

tr:nth-child(even) {
  background-color: #888;
}

tr:hover {
  border: 1px solid #bbbbbb;
}


a:hover {
  color: #535bf2;
}

#resumen {
  height: 70%;
  font-size: 0.75em;
  overflow-y: scroll;
  -ms-overflow-style: none;
  scrollbar-width: none;

  &::-webkit-scrollbar {
    display: none;
  }
}

div#pagos section.pago {
  display: flex;
  flex-direction: row;
}

#resumen-y-pago {
  padding-right: 10px;
  height: 77.5svh;
  width: 350px;
  & p:is(p) {
    align-self: self-end;
    margin: 2px;
  }
}



#pagos {
  height: 30%;
  display: flex;
  border: solid 1px #6f6f6f;
  padding: 3px;
  flex-direction: column;
  overflow-y: scroll;
  -ms-overflow-style: none;
  scrollbar-width: none;
  margin-left: 5px;

  &::-webkit-scrollbar {
    display: none;
  }

  &.focuseable {
    border-color: #535bf2;

    &.not-focused {
      border-color: #6F6F6F;
      filter: blur(2px);
      transform: scale(0.99);
    }
  }
}

/* .input-monto {
  width: 20%;

  &::-webkit-outer-spin-button,
  &::-webkit-inner-spin-button {
    -webkit-appearance: none;
    margin: 0;
  }
} */






h1 {
  text-align: center;
}

header button {
  display: contents;
}

#monto-total {
  display: inline-block;
  font-size: 1.5em;
  font-weight: 600;
  align-self: end;
  margin: auto 5px 5px 5px;
}

#monto-total p {
  display: inline-block;
  padding: 5px 10px;
  background-color: #fafafa;
  border-radius: 5px;
}

.descripcion {
  flex-grow: 1;
}




select,
.a-boton {
  background-color: #fafafa;
  color: #9a9a9a;
}

.a-boton {
  height: 20px;
}


.eliminar {
  padding: 0.6em 0.5em;
  width: 70px;
  font-size: 90%;
}

main {
  display: flex;
  justify-content: center;
}





label {
  display: block;
  padding: 10px;
}

#input-nombre-proveedor {
  display: block;
  align-self: center;
  margin: auto;
}
      input,
  button,
  select {
    color: #ffffff;
    background-color: #0f0f0f98;
  }

";

/// The style sheet of the windows after the rules of capitalisation.
pub const ESTILO_DESPUES: &'static str = "

#agregar-proveedor-submit div {
  text-align: center;
  width: 100%;
}

.add-form {
  display: flex;
  flex-direction: column;
}

#form-login {
  height: 90svh;
  display: flex;
  flex-direction: column;
  justify-content: center;
  align-items: center;

  & * {
    margin: 5px;
  }
}

#agregar-producto-container {
  display: grid;
  grid-template-columns: 35% 65%;
  grid-template-rows: auto auto;

  & #agregar-producto {
    grid-column-start: 2;
    grid-row: 1/span 2;
  }

  & #input-codigo {
    margin-top: 20px;
    grid-column-start: 1;
  }

  & #agregar-proveedor-producto {
    grid-column-start: 1;
  }

  & form {
    display: flex;
    flex-direction: column;
    align-items: center;

    & section {
      display: inline-block;
    }
  }

}

#cerrar-agregar-proveedor,
#cerrar-agregar-producto,
#cerrar-cambiar-configs {
  align-self: flex-end;
}



button:hover,
.boton:hover,
.a-boton:hover {
  border-color: #396cd8;
  border-style: solid;
  cursor: pointer;
  color: #7f7f7f;
}

button:active {
  border-color: #396cd8;
  background-color: #e8e8e8;
}

*:disabled {
  color: #777;
  background-color: #aaa;
  transition: none;
}

*:disabled:hover {
  border: #aaa;
  cursor: auto;
  border-color: rgba(0, 0, 0, 0);
  border-radius: 8px;
  border-style: solid;
  border-width: 1px;
  border-image-outset: 0;
}



#mensaje1-input {
  margin-right: 5px;
}

@media (prefers-color-scheme: dark) {
  :root {
    color: #f6f6f6;
    background-color: #2f2f2f;
  }

  a:hover {
    color: #24c8db;
  }





  button:active {
    background-color: #0f0f0f69;
  }



  select,
  .a-boton {
    background-color: #1a1a1a;
    color: #7f7f7f;
  }

  #monto-total p {
    background-color: #2f2f2f;
  }

  .boton {
    height: 2.6em;
    padding: 0.4em;
    will-change: filter;
    transition: 0.5s;
    background-color: #1a1a1a;
    border-radius: 8px;
    border: 1px;
    box-sizing: border-box;
  }

  *:disabled {
    color: #666666;
    background-color: #2f2f2f;
  }

  .main-screen {
    border: solid 2px #8f8f8f;
    background-color: #0f0f0f50;
  }


  *:disabled:hover {
    background-color: #2f2f2f;
  }

  *:disabled:hover {
    border: none;
  }
}";

/// The style sheet of the text inputs: rounded and without an outline.
pub open spec fn estilo_entrada() -> Seq<char> {
    "\n    "@ + "input{"@ + "\n      "@ + "outline: none;"@ + "\n      "@ + "border-radius: 8px;"@ + RESTO_ENTRADA@
}

/// The CSS text transform of a capitalisation.
pub open spec fn transformacion(m: Mayusculas) -> Seq<char> {
    match m {
        Mayusculas::Upper => "uppercase"@,
        Mayusculas::Lower => "lowercase"@,
        Mayusculas::Camel => "capitalize"@,
    }
}

/// The rule of the class named after a capitalisation: it transforms the text so.
pub open spec fn regla_mayus(m: Mayusculas) -> Seq<char> {
    "."@ + nombre_mayusculas(m) + " {\n  text-transform: "@ + transformacion(m) + ";\n}"@
}

/// The style sheet of the windows, with a rule for each capitalisation.
pub open spec fn estilo() -> Seq<char> {
    ESTILO_ANTES@ + regla_mayus(Mayusculas::Lower) + "\n\n"@ + regla_mayus(Mayusculas::Upper) + "\n\n"@
        + regla_mayus(Mayusculas::Camel) + ESTILO_DESPUES@
}

/// The style sheet of the text inputs.
pub fn input_style() -> (res: String)
    ensures
        res@ == estilo_entrada(),
{
    let mut s = "\n    ".to_string();
    s.append("input{");
    s.append("\n      ");
    s.append("outline: none;");
    s.append("\n      ");
    s.append("border-radius: 8px;");
    s.append(RESTO_ENTRADA);
    s
}

fn transformacion_exec(m: Mayusculas) -> (res: &'static str)
    ensures
        res@ == transformacion(m),
{
    match m {
        Mayusculas::Upper => "uppercase",
        Mayusculas::Lower => "lowercase",
        Mayusculas::Camel => "capitalize",
    }
}

/// Appends the rule of a capitalisation.
fn agregar_regla(s: &mut String, m: Mayusculas)
    ensures
        final(s)@ == old(s)@ + regla_mayus(m),
{
    s.append(".");
    let nombre = m.to_string();
    s.append(nombre.as_str());
    s.append(" {\n  text-transform: ");
    s.append(transformacion_exec(m));
    s.append(";\n}");
}

/// The style sheet of the windows of the point of sale.
pub fn style() -> (res: String)
    ensures
        res@ == estilo(),
{
    let mut s = ESTILO_ANTES.to_string();
    agregar_regla(&mut s, Mayusculas::Lower);
    s.append("\n\n");
    agregar_regla(&mut s, Mayusculas::Upper);
    s.append("\n\n");
    agregar_regla(&mut s, Mayusculas::Camel);
    s.append(ESTILO_DESPUES);
    s
}

/// The text `b` stands in `a + b + c`.
proof fn lema_contiene_en_medio(a: Seq<char>, b: Seq<char>, c: Seq<char>)
    ensures
        contiene_spec(a + b + c, b),
{
    assert((a + b + c).subrange(a.len() as int, (a.len() + b.len()) as int) =~= b);
}

/// The style sheet of the text inputs holds `input{`, `outline: none;` and
/// `border-radius: 8px;`.
pub proof fn lema_estilo_entrada()
    ensures
        contiene_spec(estilo_entrada(), "input{"@),
        contiene_spec(estilo_entrada(), "outline: none;"@),
        contiene_spec(estilo_entrada(), "border-radius: 8px;"@),
{
    let e = estilo_entrada();
    let x = "\n    "@;
    let r = "\n      "@ + "outline: none;"@ + "\n      "@ + "border-radius: 8px;"@ + RESTO_ENTRADA@;
    assert(e =~= x + "input{"@ + r);
    lema_contiene_en_medio(x, "input{"@, r);
    let x2 = "\n    "@ + "input{"@ + "\n      "@;
    let r2 = "\n      "@ + "border-radius: 8px;"@ + RESTO_ENTRADA@;
    assert(e =~= x2 + "outline: none;"@ + r2);
    lema_contiene_en_medio(x2, "outline: none;"@, r2);
    let x3 = "\n    "@ + "input{"@ + "\n      "@ + "outline: none;"@ + "\n      "@;
    assert(e =~= x3 + "border-radius: 8px;"@ + RESTO_ENTRADA@);
    lema_contiene_en_medio(x3, "border-radius: 8px;"@, RESTO_ENTRADA@);
}

/// The style sheet of the windows holds, for each capitalisation, the class named after it
/// (`.Upper {`, `.Lower {`, `.Camel {`) with the rule that transforms the text to upper
/// case, lower case or capitalised words.
pub proof fn lema_estilo_mayusculas(m: Mayusculas)
    ensures
        contiene_spec(estilo(), "."@ + nombre_mayusculas(m) + " {"@),
        contiene_spec(estilo(), regla_mayus(m)),
        transformacion(m) == match m {
            Mayusculas::Upper => "uppercase"@,
            Mayusculas::Lower => "lowercase"@,
            Mayusculas::Camel => "capitalize"@,
        },
{
    let l = regla_mayus(Mayusculas::Lower);
    let u = regla_mayus(Mayusculas::Upper);
    let c = regla_mayus(Mayusculas::Camel);
    let sep = "\n\n"@;
    let (x, y) = match m {
        Mayusculas::Lower => (ESTILO_ANTES@, sep + u + sep + c + ESTILO_DESPUES@),
        Mayusculas::Upper => (ESTILO_ANTES@ + l + sep, sep + c + ESTILO_DESPUES@),
        Mayusculas::Camel => (ESTILO_ANTES@ + l + sep + u + sep, ESTILO_DESPUES@),
    };
    let r = regla_mayus(m);
    assert(estilo() =~= x + r + y);
    lema_contiene_en_medio(x, r, y);
    let cabeza = "."@ + nombre_mayusculas(m) + " {"@;
    reveal_strlit(" {\n  text-transform: ");
    reveal_strlit(" {");
    let cola = "\n  text-transform: "@ + transformacion(m) + ";\n}"@;
    assert(" {\n  text-transform: "@ =~= " {"@ + "\n  text-transform: "@) by {
        reveal_strlit("\n  text-transform: ");
    }
    assert(r =~= cabeza + cola);
    assert(estilo() =~= x + cabeza + (cola + y));
    lema_contiene_en_medio(x, cabeza, cola + y);
}

} // verus!
