use mission_bot::decree::parse_decree;
use mission_bot::ledger::TeamLedger;
use mission_bot::registry::Registrant;
use mission_bot::render::make_storage_ref;
use mission_bot::render::render_delivery;
use mission_bot::render::render_registrants;
use mission_bot::render::render_team_summary;
use mission_bot::render::split_decree;
use mission_bot::team::TeamId;
use mission_bot::text::i64_to_dec;
use mission_bot::text::u64_to_dec;

#[test]
fn numerals_render_exactly() {
    assert_eq!(u64_to_dec(0), b"0".to_vec());
    assert_eq!(u64_to_dec(10500), b"10500".to_vec());
    assert_eq!(i64_to_dec(-500), b"-500".to_vec());
    assert_eq!(i64_to_dec(i64::MIN), b"-9223372036854775808".to_vec());
}

#[test]
fn registrant_listing_renders_each_line() {
    let rs = vec![
        Registrant { id: 1, name: b"Guan Yu".to_vec(), handle: b"guan".to_vec() },
        Registrant { id: 2, name: b"Zhang Fei".to_vec(), handle: b"zhang".to_vec() },
    ];
    let out = render_registrants(&rs);
    let expected = "Estes são os nobres guerreiros que juraram lealdade a mim:\n\n\
                    - Inscrição Nº 1: Guan Yu (@guan)\n\
                    - Inscrição Nº 2: Zhang Fei (@zhang)\n";
    assert_eq!(String::from_utf8(out).unwrap(), expected);
}

#[test]
fn team_summary_uses_decree_glyphs_and_defaults() {
    let mut l = TeamLedger::new();
    l.soldiers = -500;
    l.naipes[0].rock = 3;
    l.naipes[21].scissors = 7;
    let decree = "Naipe 01\n● 🔥 Queimar (Pedra)\n".as_bytes().to_vec();
    let entries = parse_decree(&decree);
    let out = render_team_summary(TeamId::Shu, &l, &entries);
    let text = String::from_utf8(out).unwrap();
    assert!(text.starts_with("📊 **Banco de Dados do Time SHU** 📊\n\nSoldados: -500\n\nMissões por Naipe:\n"));
    assert!(text.contains("Naipe 1: 🔥 Pedra: 3 | 📜 Papel: 0 | ✂️ Tesoura: 0\n"));
    assert!(text.contains("Naipe 22: 🛡 Pedra: 0 | 📜 Papel: 0 | ✂️ Tesoura: 7\n"));
    assert_eq!(text.lines().filter(|ln| ln.starts_with("Naipe ")).count(), 22);
}

#[test]
fn delivery_summary_lists_texts_only_when_present() {
    let texts = vec![b"primeiro".to_vec(), b"segundo".to_vec()];
    let out = render_delivery(b"Zhao", b"zhao", TeamId::Wei, &texts);
    let expected = "Nova entrega de Zhao (@zhao) para o time WEI:\n\nTextos:\n- primeiro\n- segundo\n";
    assert_eq!(String::from_utf8(out).unwrap(), expected);

    let none: Vec<Vec<u8>> = Vec::new();
    let out = render_delivery(b"Zhao", b"zhao", TeamId::Wei, &none);
    assert_eq!(String::from_utf8(out).unwrap(), "Nova entrega de Zhao (@zhao) para o time WEI:\n\n");
}

#[test]
fn decree_splits_at_the_naipe_11_line() {
    let decree = "Intro\nNaipe 01\nalgo\nNaipe 11\nmais\nNaipe 12\n";
    let (p1, p2) = split_decree(decree.as_bytes());
    assert_eq!(
        String::from_utf8(p1).unwrap(),
        "Escutem todos o meu decreto! (Parte 1/2)\n\nIntro\nNaipe 01\nalgo\n"
    );
    assert_eq!(
        String::from_utf8(p2).unwrap(),
        "Escutem todos o meu decreto! (Parte 2/2)\n\nNaipe 11\nmais\nNaipe 12\n"
    );
}

#[test]
fn storage_reference_shape() {
    let r = make_storage_ref(TeamId::Shu, 42, 1700000000000, b"jpg");
    assert_eq!(String::from_utf8(r).unwrap(), "entregas/shu/42_1700000000000.jpg");
}
