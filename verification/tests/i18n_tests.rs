use typebridge::i18n::{lang_for_locale, startup_lang, Lang};

#[test]
fn labels_and_default() {
    assert_eq!(Lang::default(), Lang::En);
    assert_eq!(Lang::En.label(), "English");
    assert_eq!(Lang::PtBr.label(), "Português (BR)");
    assert_eq!(Lang::Es.label(), "Español");
    assert_eq!(Lang::ALL, [Lang::En, Lang::PtBr, Lang::Es]);
}

#[test]
fn tables_are_translated() {
    assert_eq!(Lang::En.s().ready, "Ready");
    assert_eq!(Lang::PtBr.s().ready, "Pronto");
    assert_eq!(Lang::Es.s().ready, "Listo");
    assert_eq!(Lang::En.s().start_typing, "▶  Start Typing");
    assert_eq!(
        Lang::PtBr.s().window_changed_msg,
        "A janela ativa mudou. Volte o foco para a janela de destino e continue, ou recomece para reconfigurar."
    );
    assert_eq!(Lang::Es.s().status, "Estado:");
    assert_eq!(Lang::En.s().no_text, "No text to type.");
}

#[test]
fn locale_picks_the_interface_language() {
    assert_eq!(lang_for_locale("pt_BR.UTF-8"), Lang::PtBr);
    assert_eq!(lang_for_locale("pt-PT"), Lang::PtBr);
    assert_eq!(lang_for_locale("PT"), Lang::PtBr);
    assert_eq!(lang_for_locale("es_ES.UTF-8"), Lang::Es);
    assert_eq!(lang_for_locale("es_MX@euro"), Lang::Es);
    assert_eq!(lang_for_locale("en_US.UTF-8"), Lang::En);
    assert_eq!(lang_for_locale("C"), Lang::En);
    assert_eq!(lang_for_locale(""), Lang::En);
    assert_eq!(lang_for_locale("pta"), Lang::En);
    assert_eq!(lang_for_locale("est_EE"), Lang::En);
}

#[test]
fn first_run_follows_the_locale_and_later_runs_the_saved_choice() {
    assert_eq!(startup_lang(true, Lang::En, "es_AR.UTF-8"), Lang::Es);
    assert_eq!(startup_lang(true, Lang::Es, "de_DE.UTF-8"), Lang::En);
    assert_eq!(startup_lang(false, Lang::En, "pt_BR.UTF-8"), Lang::En);
    assert_eq!(startup_lang(false, Lang::PtBr, "es_ES"), Lang::PtBr);
}
