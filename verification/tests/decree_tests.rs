use mission_bot::decree::parse_decree;
use mission_bot::decree::glyph_for;
use mission_bot::ledger::CounterKind;

fn sample_decree() -> Vec<u8> {
    let text = "Grande decreto de campanha\n\
                Naipe 01 - Abertura\n\
                ● 🔥 Queime o acampamento inimigo (Pedra)\n\
                ● 🏹 Dispare três flechas (Tesoura)\n\
                Naipe 02 - Rios\n\
                ● 🌊 Atravesse o rio (Papel)\n\
                Naipe 22 - Final\n\
                ● 🐉 Desperte o dragão (Pedra)\n";
    text.as_bytes().to_vec()
}

#[test]
fn decree_bindings_are_indexed_by_naipe_and_kind() {
    let entries = parse_decree(&sample_decree());
    let g = glyph_for(&entries, 1, CounterKind::Rock).expect("naipe 1 rock glyph");
    assert_eq!(g, "🔥".as_bytes().to_vec());
    let g = glyph_for(&entries, 1, CounterKind::Scissors).expect("naipe 1 scissors glyph");
    assert_eq!(g, "🏹".as_bytes().to_vec());
    let g = glyph_for(&entries, 2, CounterKind::Paper).expect("naipe 2 paper glyph");
    assert_eq!(g, "🌊".as_bytes().to_vec());
    let g = glyph_for(&entries, 22, CounterKind::Rock).expect("naipe 22 rock glyph");
    assert_eq!(g, "🐉".as_bytes().to_vec());
}

#[test]
fn missing_bindings_resolve_to_none() {
    let entries = parse_decree(&sample_decree());
    assert!(glyph_for(&entries, 1, CounterKind::Paper).is_none());
    assert!(glyph_for(&entries, 3, CounterKind::Rock).is_none());
}

#[test]
fn later_bindings_overwrite_earlier_ones() {
    let text = "Naipe 05\n● 🗡 Primeira (Pedra)\n● 🛶 Segunda (Pedra)\n";
    let entries = parse_decree(&text.as_bytes().to_vec());
    let g = glyph_for(&entries, 5, CounterKind::Rock).unwrap();
    assert_eq!(g, "🛶".as_bytes().to_vec());
}

#[test]
fn unparsable_lines_contribute_nothing() {
    let text = "● 🔥 sem naipe corrente (Pedra)\n\
                Naipe xx\n\
                ● semespaco(Pedra)\n\
                ● 🔥 sem marcador de tipo\n";
    let entries = parse_decree(&text.as_bytes().to_vec());
    assert!(entries.is_empty());
}

#[test]
fn two_digit_headers_and_earliest_kind_win() {
    let text = "Naipe 13\n● 🎭 Algo (Papel) e depois (Pedra)\n";
    let entries = parse_decree(&text.as_bytes().to_vec());
    assert!(glyph_for(&entries, 13, CounterKind::Rock).is_none());
    let g = glyph_for(&entries, 13, CounterKind::Paper).unwrap();
    assert_eq!(g, "🎭".as_bytes().to_vec());
}
