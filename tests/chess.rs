use hecto::chess::piece::BLACK_KING;
use hecto::{Board, Color, File, Game, Kind, Notation, Piece, Rank, Square};

#[test]
fn parse_notation_len2() {
    assert_eq!(
        "g5".parse::<Notation>(),
        Ok(Notation {
            piece: Kind::Pawn,
            ambiguitie: None,
            file: File(6),
            rank: Rank(4),
        })
    );
}

#[test]
fn parse_notation_len3() {
    assert_eq!(
        "Qg5".parse::<Notation>(),
        Ok(Notation {
            piece: Kind::Queen,
            ambiguitie: None,
            file: File(6),
            rank: Rank(4),
        })
    );
}

#[test]
fn parse_notation_len4() {
    assert_eq!(
        "B8g5".parse::<Notation>(),
        Ok(Notation {
            piece: Kind::Bishop,
            ambiguitie: Some(Square('8')),
            file: File(6),
            rank: Rank(4),
        })
    );

    assert_eq!(
        "Bhg5".parse::<Notation>(),
        Ok(Notation {
            piece: Kind::Bishop,
            ambiguitie: Some(Square('h')),
            file: File(6),
            rank: Rank(4),
        })
    );
}

#[test]
fn valid_file() {
    assert_eq!(File::try_from('a'), Ok(File(0)));
    assert_eq!(File::try_from('b'), Ok(File(1)));
    assert_eq!(File::try_from('c'), Ok(File(2)));
    assert_eq!(File::try_from('d'), Ok(File(3)));
    assert_eq!(File::try_from('e'), Ok(File(4)));
    assert_eq!(File::try_from('f'), Ok(File(5)));
    assert_eq!(File::try_from('g'), Ok(File(6)));
    assert_eq!(File::try_from('h'), Ok(File(7)));

    assert!(File::try_from('A').is_err());
    assert!(File::try_from('j').is_err());
    assert!(File::try_from('1').is_err());
}

#[test]
fn tryfrom_rank() {
    assert_eq!(Rank::try_from('1'), Ok(Rank(0)));
    assert_eq!(Rank::try_from('2'), Ok(Rank(1)));
    assert_eq!(Rank::try_from('3'), Ok(Rank(2)));
    assert_eq!(Rank::try_from('4'), Ok(Rank(3)));
    assert_eq!(Rank::try_from('5'), Ok(Rank(4)));
    assert_eq!(Rank::try_from('6'), Ok(Rank(5)));
    assert_eq!(Rank::try_from('7'), Ok(Rank(6)));
    assert_eq!(Rank::try_from('8'), Ok(Rank(7)));

    assert!(Rank::try_from('0').is_err());
    assert!(Rank::try_from('9').is_err());
    assert!(Rank::try_from('a').is_err());
}

#[test]
fn sqaure() {
    assert_eq!(Square::try_from('a'), Ok(Square('a')));
    assert_eq!(Square::try_from('h'), Ok(Square('h')));

    assert_eq!(Square::try_from('1'), Ok(Square('1')));
    assert_eq!(Square::try_from('8'), Ok(Square('8')));

    assert!(Square::try_from('i').is_err());
    assert!(Square::try_from('\n').is_err());
    assert!(Square::try_from('!').is_err());
    assert!(Square::try_from('9').is_err());
    assert!(Square::try_from('0').is_err());
}

#[test]
fn sqaure_file() {
    assert!(Square('a').is_file());
    assert!(Square('h').is_file());

    assert!(!Square('1').is_file());
    assert!(!Square('8').is_file());
}

#[test]
fn sqaure_rank() {
    assert!(Square('1').is_rank());
    assert!(Square('8').is_rank());

    assert!(!Square('a').is_rank());
    assert!(!Square('e').is_rank());
}

#[test]
fn symbol() {
    assert_eq!(Piece::new(Color::Black, Kind::King).symbol(), BLACK_KING);
}

#[test]
fn parse_piecekind() {
    assert_eq!("n".parse::<Kind>(), Ok(Kind::Knight));
    assert_eq!("b".parse::<Kind>(), Ok(Kind::Bishop));
    assert_eq!("r".parse::<Kind>(), Ok(Kind::Rook));
    assert_eq!("q".parse::<Kind>(), Ok(Kind::Queen));
    assert_eq!("k".parse::<Kind>(), Ok(Kind::King));

    assert_eq!("N".parse::<Kind>(), Ok(Kind::Knight));
    assert_eq!("B".parse::<Kind>(), Ok(Kind::Bishop));
    assert_eq!("R".parse::<Kind>(), Ok(Kind::Rook));
    assert_eq!("Q".parse::<Kind>(), Ok(Kind::Queen));
    assert_eq!("K".parse::<Kind>(), Ok(Kind::King));
}

#[test]
fn error_messages_name_the_bad_part() {
    assert_eq!("p".parse::<Kind>(), Err("Unknown notation: 'p'".to_string()));
    assert_eq!(File::try_from('z'), Err("Could not parse 'z' into file.".to_string()));
    assert_eq!(Rank::try_from('9'), Err("Could not parse '9' into rank.".to_string()));
    assert_eq!(Square::try_from('!'), Err("Could not parse '!'".to_string()));
    assert_eq!("g".parse::<Notation>(), Err("notation wrong length".to_string()));
    assert_eq!("".parse::<Notation>(), Err("notation wrong length".to_string()));
    assert_eq!("x5".parse::<Notation>(), Err("Could not parse 'x' into file.".to_string()));
    assert_eq!("Pg5".parse::<Notation>(), Err("Unknown notation: 'P'".to_string()));
    assert_eq!("B9g5".parse::<Notation>(), Err("Could not parse '9'".to_string()));
}

#[test]
fn long_notation_reads_first_four() {
    assert_eq!(
        "Nbd7+".parse::<Notation>(),
        Ok(Notation {
            piece: Kind::Knight,
            ambiguitie: Some(Square('b')),
            file: File(3),
            rank: Rank(6),
        })
    );
}

#[test]
fn starting_board_and_turns() {
    let board = Board::new();
    assert_eq!(board.0[0], Some(Piece::new(Color::Black, Kind::Rook)));
    assert_eq!(board.0[4], Some(Piece::new(Color::Black, Kind::King)));
    assert_eq!(board.0[11], Some(Piece::new(Color::Black, Kind::Pawn)));
    assert_eq!(board.0[35], None);
    assert_eq!(board.0[50], Some(Piece::new(Color::White, Kind::Pawn)));
    assert_eq!(board.0[59], Some(Piece::new(Color::White, Kind::Queen)));
    assert_eq!(board.0[62], Some(Piece::new(Color::White, Kind::Knight)));

    let mut game = Game::default();
    assert_eq!(game.turn(), Color::White);
    game.next_turn();
    assert_eq!(game.turn(), Color::Black);
    game.next_turn();
    assert_eq!(game.turn(), Color::White);
    assert_eq!(Color::Black.name(), "Black");
    assert_eq!(Kind::Knight.name(), "Knight");
}

#[test]
fn move_piece_reads_destination() {
    let mut board = Board::new();
    assert_eq!(board.move_piece(Color::White, "Qg5"), Ok((Kind::Queen, 6, 4)));
    assert!(board.move_piece(Color::White, "Zg5").is_err());
}

#[test]
fn square_reads_as_its_character() {
    let s = Square::try_from('c').unwrap();
    assert_eq!(*s, 'c');
    assert!(s.is_alphabetic());
}
