//! Compile-time translations of the user interface (English, Brazilian
//! Portuguese, Spanish).
use vstd::prelude::*;
use crate::text::chars_of;

verus! {

broadcast use vstd::string::group_string_axioms;

/// A language of the user interface.
#[derive(Clone, Copy, PartialEq, Eq, Debug, Structural)]
pub enum Lang {
    En,
    PtBr,
    Es,
}

impl Default for Lang {
    fn default() -> (l: Lang)
        ensures
            l == Lang::En,
    {
        Lang::En
    }
}

/// The native name of each language, as its selector shows it.
pub open spec fn label_text(l: Lang) -> Seq<char> {
    match l {
        Lang::En => "English"@,
        Lang::PtBr => "Português (BR)"@,
        Lang::Es => "Español"@,
    }
}

/// All user-visible UI strings.
#[derive(Clone, Copy)]
pub struct Strings {
    pub subtitle: &'static str,
    pub language: &'static str,
    pub text: &'static str,
    pub hint: &'static str,
    pub paste_clipboard: &'static str,
    pub clear: &'static str,
    pub characters: &'static str,
    pub delay_between_keys: &'static str,
    pub initial_delay: &'static str,
    pub initial_delay_help: &'static str,
    pub presets: &'static str,
    pub very_fast: &'static str,
    pub fast: &'static str,
    pub normal: &'static str,
    pub slow: &'static str,
    pub very_slow: &'static str,
    pub minimize_before: &'static str,
    pub detect_window_change: &'static str,
    pub detect_window_change_help: &'static str,
    pub physical_keys: &'static str,
    pub physical_keys_help: &'static str,
    pub start_typing: &'static str,
    pub cancel: &'static str,
    pub status: &'static str,
    pub ready: &'static str,
    pub waiting: &'static str,
    pub typing: &'static str,
    pub finished: &'static str,
    pub cancelled: &'static str,
    pub error: &'static str,
    pub paused: &'static str,
    pub no_text: &'static str,
    pub clipboard_error: &'static str,
    pub window_changed_title: &'static str,
    pub window_changed_msg: &'static str,
    pub continue_btn: &'static str,
    pub restart_btn: &'static str,
}

/// The English string table.
pub open spec fn english() -> Strings {
    Strings {
        subtitle: "Types text into the focused window — no clipboard, no paste.",
        language: "Language",
        text: "Text",
        hint: "Type or paste the text to send...",
        paste_clipboard: "Paste Clipboard",
        clear: "Clear",
        characters: "characters",
        delay_between_keys: "Delay between keys",
        initial_delay: "Initial delay",
        initial_delay_help: "(time to switch to the target window)",
        presets: "Presets:",
        very_fast: "Very fast",
        fast: "Fast",
        normal: "Normal",
        slow: "Slow",
        very_slow: "Very slow",
        minimize_before: "Minimize window before typing",
        detect_window_change: "Stop if the focused window changes",
        detect_window_change_help: "(pauses and warns if focus leaves the target)",
        physical_keys: "Physical keys (best for VNC/RDP/remote)",
        physical_keys_help: "(sends real keypresses with Shift; turn off only for special characters in local apps)",
        start_typing: "▶  Start Typing",
        cancel: "Cancel (Esc)",
        status: "Status:",
        ready: "Ready",
        waiting: "Waiting…",
        typing: "Typing…",
        finished: "Finished",
        cancelled: "Cancelled",
        error: "Error",
        paused: "Paused",
        no_text: "No text to type.",
        clipboard_error: "Could not read the clipboard.",
        window_changed_title: "Focus changed — typing paused",
        window_changed_msg: "The active window changed. Refocus the target window and continue, or restart to reconfigure.",
        continue_btn: "Continue",
        restart_btn: "Restart",
    }
}

/// The Brazilian Portuguese string table.
pub open spec fn portuguese() -> Strings {
    Strings {
        subtitle: "Digita texto na janela em foco — sem área de transferência, sem colar.",
        language: "Idioma",
        text: "Texto",
        hint: "Digite ou cole o texto a enviar...",
        paste_clipboard: "Colar da Área de Transferência",
        clear: "Limpar",
        characters: "caracteres",
        delay_between_keys: "Atraso entre teclas",
        initial_delay: "Atraso inicial",
        initial_delay_help: "(tempo para mudar para a janela de destino)",
        presets: "Predefinições:",
        very_fast: "Muito rápido",
        fast: "Rápido",
        normal: "Normal",
        slow: "Lento",
        very_slow: "Muito lento",
        minimize_before: "Minimizar janela antes de digitar",
        detect_window_change: "Parar se a janela em foco mudar",
        detect_window_change_help: "(pausa e avisa se o foco sair do destino)",
        physical_keys: "Teclas físicas (melhor para VNC/RDP/remoto)",
        physical_keys_help: "(envia teclas reais com Shift; desligue só para caracteres especiais em apps locais)",
        start_typing: "▶  Iniciar Digitação",
        cancel: "Cancelar (Esc)",
        status: "Status:",
        ready: "Pronto",
        waiting: "Aguardando…",
        typing: "Digitando…",
        finished: "Concluído",
        cancelled: "Cancelado",
        error: "Erro",
        paused: "Pausado",
        no_text: "Nenhum texto para digitar.",
        clipboard_error: "Não foi possível ler a área de transferência.",
        window_changed_title: "Foco mudou — digitação pausada",
        window_changed_msg: "A janela ativa mudou. Volte o foco para a janela de destino e continue, ou recomece para reconfigurar.",
        continue_btn: "Continuar",
        restart_btn: "Recomeçar",
    }
}

/// The Spanish string table.
pub open spec fn spanish() -> Strings {
    Strings {
        subtitle: "Escribe texto en la ventana enfocada — sin portapapeles, sin pegar.",
        language: "Idioma",
        text: "Texto",
        hint: "Escribe o pega el texto a enviar...",
        paste_clipboard: "Pegar del Portapapeles",
        clear: "Limpiar",
        characters: "caracteres",
        delay_between_keys: "Retardo entre teclas",
        initial_delay: "Retardo inicial",
        initial_delay_help: "(tiempo para cambiar a la ventana de destino)",
        presets: "Preajustes:",
        very_fast: "Muy rápido",
        fast: "Rápido",
        normal: "Normal",
        slow: "Lento",
        very_slow: "Muy lento",
        minimize_before: "Minimizar ventana antes de escribir",
        detect_window_change: "Detener si cambia la ventana enfocada",
        detect_window_change_help: "(pausa y avisa si el foco sale del destino)",
        physical_keys: "Teclas físicas (mejor para VNC/RDP/remoto)",
        physical_keys_help: "(envía pulsaciones reales con Shift; desactívalo solo para caracteres especiales en apps locales)",
        start_typing: "▶  Empezar a Escribir",
        cancel: "Cancelar (Esc)",
        status: "Estado:",
        ready: "Listo",
        waiting: "Esperando…",
        typing: "Escribiendo…",
        finished: "Finalizado",
        cancelled: "Cancelado",
        error: "Error",
        paused: "Pausado",
        no_text: "No hay texto para escribir.",
        clipboard_error: "No se pudo leer el portapapeles.",
        window_changed_title: "El foco cambió — escritura pausada",
        window_changed_msg: "La ventana activa cambió. Vuelve a enfocar la ventana de destino y continúa, o reinicia para reconfigurar.",
        continue_btn: "Continuar",
        restart_btn: "Reiniciar",
    }
}

/// The string table of a language.
pub open spec fn table_of(l: Lang) -> Strings {
    match l {
        Lang::En => english(),
        Lang::PtBr => portuguese(),
        Lang::Es => spanish(),
    }
}

impl Lang {
    /// All languages, in selector order.
    pub const ALL: [Lang; 3] = [Lang::En, Lang::PtBr, Lang::Es];

    /// Native display name for the language selector.
    pub fn label(self) -> (r: &'static str)
        ensures
            r@ == label_text(self),
    {
        match self {
            Lang::En => "English",
            Lang::PtBr => "Português (BR)",
            Lang::Es => "Español",
        }
    }

    /// The string table for this language.
    pub fn s(self) -> (r: Strings)
        ensures
            r == table_of(self),
    {
        match self {
            Lang::En => Strings {
                subtitle: "Types text into the focused window — no clipboard, no paste.",
                language: "Language",
                text: "Text",
                hint: "Type or paste the text to send...",
                paste_clipboard: "Paste Clipboard",
                clear: "Clear",
                characters: "characters",
                delay_between_keys: "Delay between keys",
                initial_delay: "Initial delay",
                initial_delay_help: "(time to switch to the target window)",
                presets: "Presets:",
                very_fast: "Very fast",
                fast: "Fast",
                normal: "Normal",
                slow: "Slow",
                very_slow: "Very slow",
                minimize_before: "Minimize window before typing",
                detect_window_change: "Stop if the focused window changes",
                detect_window_change_help: "(pauses and warns if focus leaves the target)",
                physical_keys: "Physical keys (best for VNC/RDP/remote)",
                physical_keys_help: "(sends real keypresses with Shift; turn off only for special characters in local apps)",
                start_typing: "▶  Start Typing",
                cancel: "Cancel (Esc)",
                status: "Status:",
                ready: "Ready",
                waiting: "Waiting…",
                typing: "Typing…",
                finished: "Finished",
                cancelled: "Cancelled",
                error: "Error",
                paused: "Paused",
                no_text: "No text to type.",
                clipboard_error: "Could not read the clipboard.",
                window_changed_title: "Focus changed — typing paused",
                window_changed_msg: "The active window changed. Refocus the target window and continue, or restart to reconfigure.",
                continue_btn: "Continue",
                restart_btn: "Restart",
            },
            Lang::PtBr => Strings {
                subtitle: "Digita texto na janela em foco — sem área de transferência, sem colar.",
                language: "Idioma",
                text: "Texto",
                hint: "Digite ou cole o texto a enviar...",
                paste_clipboard: "Colar da Área de Transferência",
                clear: "Limpar",
                characters: "caracteres",
                delay_between_keys: "Atraso entre teclas",
                initial_delay: "Atraso inicial",
                initial_delay_help: "(tempo para mudar para a janela de destino)",
                presets: "Predefinições:",
                very_fast: "Muito rápido",
                fast: "Rápido",
                normal: "Normal",
                slow: "Lento",
                very_slow: "Muito lento",
                minimize_before: "Minimizar janela antes de digitar",
                detect_window_change: "Parar se a janela em foco mudar",
                detect_window_change_help: "(pausa e avisa se o foco sair do destino)",
                physical_keys: "Teclas físicas (melhor para VNC/RDP/remoto)",
                physical_keys_help: "(envia teclas reais com Shift; desligue só para caracteres especiais em apps locais)",
                start_typing: "▶  Iniciar Digitação",
                cancel: "Cancelar (Esc)",
                status: "Status:",
                ready: "Pronto",
                waiting: "Aguardando…",
                typing: "Digitando…",
                finished: "Concluído",
                cancelled: "Cancelado",
                error: "Erro",
                paused: "Pausado",
                no_text: "Nenhum texto para digitar.",
                clipboard_error: "Não foi possível ler a área de transferência.",
                window_changed_title: "Foco mudou — digitação pausada",
                window_changed_msg: "A janela ativa mudou. Volte o foco para a janela de destino e continue, ou recomece para reconfigurar.",
                continue_btn: "Continuar",
                restart_btn: "Recomeçar",
            },
            Lang::Es => Strings {
                subtitle: "Escribe texto en la ventana enfocada — sin portapapeles, sin pegar.",
                language: "Idioma",
                text: "Texto",
                hint: "Escribe o pega el texto a enviar...",
                paste_clipboard: "Pegar del Portapapeles",
                clear: "Limpiar",
                characters: "caracteres",
                delay_between_keys: "Retardo entre teclas",
                initial_delay: "Retardo inicial",
                initial_delay_help: "(tiempo para cambiar a la ventana de destino)",
                presets: "Preajustes:",
                very_fast: "Muy rápido",
                fast: "Rápido",
                normal: "Normal",
                slow: "Lento",
                very_slow: "Muy lento",
                minimize_before: "Minimizar ventana antes de escribir",
                detect_window_change: "Detener si cambia la ventana enfocada",
                detect_window_change_help: "(pausa y avisa si el foco sale del destino)",
                physical_keys: "Teclas físicas (mejor para VNC/RDP/remoto)",
                physical_keys_help: "(envía pulsaciones reales con Shift; desactívalo solo para caracteres especiales en apps locales)",
                start_typing: "▶  Empezar a Escribir",
                cancel: "Cancelar (Esc)",
                status: "Estado:",
                ready: "Listo",
                waiting: "Esperando…",
                typing: "Escribiendo…",
                finished: "Finalizado",
                cancelled: "Cancelado",
                error: "Error",
                paused: "Pausado",
                no_text: "No hay texto para escribir.",
                clipboard_error: "No se pudo leer el portapapeles.",
                window_changed_title: "El foco cambió — escritura pausada",
                window_changed_msg: "La ventana activa cambió. Vuelve a enfocar la ventana de destino y continúa, o reinicia para reconfigurar.",
                continue_btn: "Continuar",
                restart_btn: "Reiniciar",
            },
        }
    }
}

/// Every language has its own label in the selector.
pub proof fn lemma_labels_distinct(a: Lang, b: Lang)
    ensures
        a != b ==> label_text(a) != label_text(b),
{
    reveal_strlit("English");
    reveal_strlit("Português (BR)");
    reveal_strlit("Español");
    if a != b {
        assert(label_text(a)[1] != label_text(b)[1] || label_text(a).len() != label_text(b).len());
    }
}

/// The selector lists every language exactly once.
pub proof fn lemma_all_lists_each_language_once(l: Lang)
    ensures
        Lang::ALL@.len() == 3,
        exists|i: int| 0 <= i < 3 && #[trigger] Lang::ALL@[i] == l,
        forall|i: int, j: int| 0 <= i < j < 3 ==> Lang::ALL@[i] != Lang::ALL@[j],
{
    match l {
        Lang::En => assert(Lang::ALL@[0] == l),
        Lang::PtBr => assert(Lang::ALL@[1] == l),
        Lang::Es => assert(Lang::ALL@[2] == l),
    }
}

/// Whether `c` is the lower-case ASCII letter `lower` or its capital.
pub open spec fn same_letter(c: char, lower: char) -> bool {
    c == lower || c as int + 32 == lower as int
}

/// Whether a locale name (`pt_BR.UTF-8`, `es-ES`, `pt`) starts with the
/// two-letter language tag `a b`, in either case, followed by the end of
/// the name or by one of the separators `_ - . @`.
pub open spec fn tag_is(s: Seq<char>, a: char, b: char) -> bool {
    &&& s.len() >= 2
    &&& same_letter(s[0], a)
    &&& same_letter(s[1], b)
    &&& (s.len() == 2 || s[2] == '_' || s[2] == '-' || s[2] == '.' || s[2] == '@')
}

/// The interface language for a system locale: Portuguese locales give
/// Brazilian Portuguese, Spanish ones Spanish, every other one English.
pub open spec fn locale_lang(s: Seq<char>) -> Lang {
    if tag_is(s, 'p', 't') {
        Lang::PtBr
    } else if tag_is(s, 'e', 's') {
        Lang::Es
    } else {
        Lang::En
    }
}

fn letter_is(c: char, lower: char) -> (b: bool)
    requires
        'a' <= lower <= 'z',
    ensures
        b == same_letter(c, lower),
{
    c == lower || (c as u32) + 32 == lower as u32
}

fn tag_matches(v: &Vec<char>, a: char, b: char) -> (r: bool)
    requires
        'a' <= a <= 'z',
        'a' <= b <= 'z',
    ensures
        r == tag_is(v@, a, b),
{
    if v.len() < 2 {
        return false;
    }
    if !letter_is(v[0], a) || !letter_is(v[1], b) {
        return false;
    }
    if v.len() == 2 {
        return true;
    }
    let c = v[2];
    c == '_' || c == '-' || c == '.' || c == '@'
}

/// The interface language that a system locale asks for.
pub fn lang_for_locale(locale: &str) -> (l: Lang)
    ensures
        l == locale_lang(locale@),
{
    let v = chars_of(locale);
    if tag_matches(&v, 'p', 't') {
        Lang::PtBr
    } else if tag_matches(&v, 'e', 's') {
        Lang::Es
    } else {
        Lang::En
    }
}

/// The language the window opens in: on the first run, when no settings
/// were saved yet, the one of the system locale; afterwards the one the
/// user chose and the settings kept.
pub fn startup_lang(first_run: bool, saved: Lang, locale: &str) -> (l: Lang)
    ensures
        l == (if first_run { locale_lang(locale@) } else { saved }),
{
    if first_run {
        lang_for_locale(locale)
    } else {
        saved
    }
}

} // verus!
