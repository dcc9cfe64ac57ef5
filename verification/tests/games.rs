use flatbuffers::{ForwardsUOffset, Table, Vector};
use lcpgn::board::Color;
use lcpgn::chunk::{is_fen_key, record_state, Artifact, Chunk, Outcome};
use lcpgn::document::{compress, compressed, encode_game, piece_type_codes, probabilities_bits};
use lcpgn::fault::Fault;
use lcpgn::fen::{count_slashes, has_one_king_each, is_single, position_from_fen, KingBoards};
use lcpgn::moves::{Move, Role};
use lcpgn::record::{Game, PieceType, Pieces, Policy, Position, Side, State, Winner};
use lcpgn::table::{is_well_formed_list, names_each_code_once, MoveTable};
use pgn_reader::{BufferedReader, RawHeader, SanPlus, Skip, Visitor};
use std::io::Read;

fn square_name(square: i32) -> String {
    format!("{}{}", (b'a' + (square % 8) as u8) as char, (b'1' + (square / 8) as u8) as char)
}

fn action_space() -> Vec<String> {
    let mut list = Vec::new();
    for from in 0..64i32 {
        for to in 0..64i32 {
            let (df, dr) = ((from % 8 - to % 8).abs(), (from / 8 - to / 8).abs());
            let queen = from != to && (df == 0 || dr == 0 || df == dr);
            let knight = (df == 1 && dr == 2) || (df == 2 && dr == 1);
            if queen || knight {
                list.push(format!("{}{}", square_name(from), square_name(to)));
            }
        }
    }
    for file in 0..8i32 {
        for to_file in [file - 1, file, file + 1] {
            if (0..8).contains(&to_file) {
                for suffix in ["q", "r", "b"] {
                    list.push(format!(
                        "{}{}{}",
                        square_name(48 + file),
                        square_name(56 + to_file),
                        suffix
                    ));
                }
            }
        }
    }
    list
}

fn move_table() -> MoveTable {
    let list = action_space();
    let entries: Vec<&str> = list.iter().map(|entry| entry.as_str()).collect();
    assert!(entries.len() <= 65536);
    assert!(is_well_formed_list(&entries));
    assert!(names_each_code_once(&entries));
    MoveTable::new(&entries)
}

fn new_chunk() -> Chunk {
    Chunk::new(move_table())
}

const WHITE_START_TYPES: [PieceType; 16] = [
    PieceType::Pawn,
    PieceType::Pawn,
    PieceType::Pawn,
    PieceType::Pawn,
    PieceType::Pawn,
    PieceType::Pawn,
    PieceType::Pawn,
    PieceType::Pawn,
    PieceType::Knight,
    PieceType::Knight,
    PieceType::Bishop,
    PieceType::Bishop,
    PieceType::Rook,
    PieceType::Rook,
    PieceType::Queen,
    PieceType::King,
];
const WHITE_START_SQUARES: [u8; 16] = [8, 9, 10, 11, 12, 13, 14, 15, 1, 6, 2, 5, 0, 7, 3, 4];
const BLACK_START_SQUARES: [u8; 16] =
    [48, 49, 50, 51, 52, 53, 54, 55, 57, 62, 58, 61, 56, 63, 59, 60];
const START_TYPE_CODES: [u8; 16] = [0, 0, 0, 0, 0, 0, 0, 0, 1, 1, 2, 2, 3, 3, 4, 5];

/// Drives an accumulator from the events of a transcript, and keeps what
/// each finished game handed out and the first fault met.
struct Driver {
    chunk: Chunk,
    finished: Vec<Artifact>,
    fault: Option<Fault>,
}

impl Driver {
    fn new() -> Driver {
        Driver { chunk: new_chunk(), finished: Vec::new(), fault: None }
    }

    fn read(text: &str) -> Driver {
        let mut driver = Driver::new();
        let mut reader = BufferedReader::new_cursor(text.as_bytes());
        reader.read_all(&mut driver).unwrap();
        driver
    }

    fn note(&mut self, done: Result<(), Fault>) {
        if let Err(fault) = done {
            self.fault.get_or_insert(fault);
        }
    }
}

impl Visitor for Driver {
    type Result = ();

    fn begin_game(&mut self) {
        assert!(self.chunk.game_id() < i32::MAX);
        self.chunk.begin_game();
    }

    fn header(&mut self, key: &[u8], value: RawHeader<'_>) {
        self.chunk.header(key, value.as_bytes());
    }

    fn san(&mut self, san_plus: SanPlus) {
        if self.fault.is_none() {
            let done = self.chunk.try_san(san_plus.san.to_string().as_bytes());
            self.note(done);
        }
    }

    fn begin_variation(&mut self) -> Skip {
        Skip(self.chunk.begin_variation())
    }

    fn outcome(&mut self, outcome: Option<pgn_reader::Outcome>) {
        let outcome = outcome.map(|outcome| match outcome {
            pgn_reader::Outcome::Draw => Outcome::Draw,
            pgn_reader::Outcome::Decisive { winner: pgn_reader::Color::White } => {
                Outcome::Decisive { winner: Color::White }
            }
            pgn_reader::Outcome::Decisive { winner: pgn_reader::Color::Black } => {
                Outcome::Decisive { winner: Color::Black }
            }
        });
        let done = self.chunk.try_outcome(outcome);
        self.note(done);
    }

    fn end_game(&mut self) {
        match self.chunk.end_game() {
            Ok(artifact) => self.finished.push(artifact),
            Err(fault) => {
                self.fault.get_or_insert(fault);
            }
        }
    }
}

fn one_hot_index(policy: &Policy) -> u16 {
    assert_eq!(policy.index.len(), policy.probability.len());
    assert_eq!(policy.probability.iter().map(|p| *p as u32).sum::<u32>(), 1);
    let hits: Vec<usize> =
        (0..policy.probability.len()).filter(|i| policy.probability[*i] == 1).collect();
    assert_eq!(hits.len(), 1);
    assert!(policy.probability.iter().all(|p| *p <= 1));
    policy.index[hits[0]]
}

fn table_at<'a>(table: &Table<'a>, slot: i16) -> Table<'a> {
    table.get::<ForwardsUOffset<Table<'a>>>(slot, None).unwrap()
}

fn bytes_at(table: &Table<'_>, slot: i16) -> Vec<u8> {
    let vector = table.get::<ForwardsUOffset<Vector<'_, u8>>>(slot, None).unwrap();
    vector.iter().collect()
}

fn byte_at(table: &Table<'_>, slot: i16) -> u8 {
    table.get::<u8>(slot, Some(0)).unwrap()
}

fn gunzip(data: &[u8]) -> Vec<u8> {
    let mut decoder = flate2::read::GzDecoder::new(data);
    let mut document = Vec::new();
    decoder.read_to_end(&mut document).unwrap();
    document
}

#[test]
fn new_accumulator_is_before_its_first_game() {
    let chunk = new_chunk();
    assert_eq!(chunk.game_id(), -1);
    assert_eq!(chunk.state_count(), 0);
    assert_eq!(chunk.result(), None);
    assert!(chunk.states().is_empty());
}

#[test]
fn standard_position_has_its_pieces_in_board_order() {
    let chunk = new_chunk();
    let white = chunk.pieces(Color::White);
    assert_eq!(white.types, WHITE_START_TYPES.to_vec());
    assert_eq!(white.indices, WHITE_START_SQUARES.to_vec());
    let black = chunk.pieces(Color::Black);
    assert_eq!(black.types, WHITE_START_TYPES.to_vec());
    assert_eq!(black.indices, BLACK_START_SQUARES.to_vec());
}

#[test]
fn each_move_records_the_position_before_it() {
    let mut chunk = new_chunk();
    chunk.begin_game();
    assert_eq!(chunk.game_id(), 0);
    chunk.try_san(b"e4").unwrap();
    chunk.try_san(b"e5").unwrap();
    chunk.try_san(b"Nf3").unwrap();
    assert_eq!(chunk.state_count(), 3);
    let states = chunk.states();

    let first = &states[0];
    assert_eq!(first.position.white.indices, WHITE_START_SQUARES.to_vec());
    assert_eq!(first.position.black.indices, BLACK_START_SQUARES.to_vec());
    assert_eq!(first.position.side_to_move, Side::White);
    assert!(first.position.us_oo && first.position.us_ooo);
    assert!(first.position.them_oo && first.position.them_ooo);
    assert_eq!((first.position.repetitions, first.position.rule_50), (0, 0));
    assert_eq!(first.policy.index.len(), 20);
    assert_eq!(one_hot_index(&first.policy), 322);

    let second = &states[1];
    assert_eq!(second.position.side_to_move, Side::Black);
    assert_eq!(
        second.position.white.indices,
        vec![8, 9, 10, 11, 13, 14, 15, 28, 1, 6, 2, 5, 0, 7, 3, 4]
    );
    assert_eq!(second.position.black.indices, BLACK_START_SQUARES.to_vec());
    assert_eq!(second.policy.index.len(), 20);
    assert_eq!(one_hot_index(&second.policy), 1498);

    let third = &states[2];
    assert_eq!(third.position.side_to_move, Side::White);
    assert_eq!(
        third.position.black.indices,
        vec![36, 48, 49, 50, 51, 53, 54, 55, 57, 62, 58, 61, 56, 63, 59, 60]
    );
    assert_eq!(third.policy.index.len(), 29);
    assert_eq!(one_hot_index(&third.policy), 159);
}

#[test]
fn every_policy_lists_each_legal_move_once() {
    let mut chunk = new_chunk();
    chunk.begin_game();
    for san in ["d4", "Nf6", "c4", "e6", "Nc3", "Bb4", "e3", "O-O", "Bd3", "d5"] {
        chunk.try_san(san.as_bytes()).unwrap();
    }
    for state in chunk.states() {
        one_hot_index(&state.policy);
        assert_eq!(state.position.white.types.len(), state.position.white.indices.len());
        assert_eq!(state.position.black.types.len(), state.position.black.indices.len());
    }
}

#[test]
fn castling_is_indexed_as_king_to_rook_and_ends_the_rights() {
    let mut chunk = new_chunk();
    chunk.begin_game();
    for san in ["e4", "e5", "Nf3", "Nc6", "Bc4", "Bc5", "O-O", "Nf6"] {
        chunk.try_san(san.as_bytes()).unwrap();
    }
    let states = chunk.states();
    assert_eq!(one_hot_index(&states[6].policy), 103);
    assert!(states[6].position.us_oo && states[6].position.us_ooo);
    assert!(!states[7].position.us_oo && !states[7].position.us_ooo);
    assert!(states[7].position.them_oo && states[7].position.them_ooo);
}

#[test]
fn move_text_that_names_no_legal_move_is_a_fault() {
    let mut chunk = new_chunk();
    chunk.begin_game();
    assert_eq!(chunk.try_san(b"e5").unwrap_err(), Fault::IllegalMove);
    assert_eq!(chunk.try_san(b"Ke2").unwrap_err(), Fault::IllegalMove);
    assert_eq!(chunk.try_san(b"--").unwrap_err(), Fault::IllegalMove);
    assert_eq!(chunk.try_san(b"").unwrap_err(), Fault::IllegalMove);
    assert_eq!(chunk.try_san(b"xyz").unwrap_err(), Fault::IllegalMove);
    assert_eq!(chunk.state_count(), 0);
    chunk.try_san(b"e4").unwrap();
    assert_eq!(chunk.state_count(), 1);
    assert_eq!(chunk.states()[0].position.white.indices, WHITE_START_SQUARES.to_vec());
}

#[test]
fn begin_game_resets_position_records_and_winner() {
    let mut chunk = new_chunk();
    chunk.begin_game();
    chunk.try_san(b"e4").unwrap();
    chunk.try_outcome(Some(Outcome::Draw)).unwrap();
    assert_eq!(chunk.result(), Some(Winner::Draw));
    chunk.begin_game();
    assert_eq!(chunk.game_id(), 1);
    assert_eq!(chunk.state_count(), 0);
    assert_eq!(chunk.result(), None);
    assert_eq!(chunk.pieces(Color::White).indices, WHITE_START_SQUARES.to_vec());
    chunk.try_san(b"e4").unwrap();
    assert_eq!(chunk.states()[0].position.side_to_move, Side::White);
}

#[test]
fn fen_header_sets_the_starting_position() {
    let mut chunk = new_chunk();
    chunk.begin_game();
    chunk.header(b"Event", b"4k3/8/8/8/8/8/4P3/4K3 w - - 0 1");
    assert_eq!(chunk.pieces(Color::White).indices, WHITE_START_SQUARES.to_vec());
    chunk.header(b"FEN", b"4k3/8/8/8/8/8/4P3/4K3 b - - 0 1");
    let white = chunk.pieces(Color::White);
    assert_eq!(white.types, vec![PieceType::Pawn, PieceType::King]);
    assert_eq!(white.indices, vec![12, 4]);
    let black = chunk.pieces(Color::Black);
    assert_eq!(black.types, vec![PieceType::King]);
    assert_eq!(black.indices, vec![60]);
    chunk.try_san(b"Kd7").unwrap();
    let state = &chunk.states()[0];
    assert_eq!(state.position.side_to_move, Side::Black);
    assert!(!state.position.us_oo && !state.position.us_ooo);
    assert!(!state.position.them_oo && !state.position.them_ooo);
    assert_eq!(state.policy.index.len(), 5);
}

#[test]
fn fen_header_keeps_the_castling_rights_it_names() {
    let mut chunk = new_chunk();
    chunk.begin_game();
    chunk.header(b"FEN", b"r3k2r/8/8/8/8/8/8/R3K2R w Kq - 0 1");
    chunk.try_san(b"O-O").unwrap();
    let state = &chunk.states()[0];
    assert!(state.position.us_oo && !state.position.us_ooo);
    assert!(state.position.them_ooo && !state.position.them_oo);
    assert_eq!(one_hot_index(&state.policy), 103);
}

#[test]
fn header_keys_are_matched_exactly() {
    assert!(is_fen_key(b"FEN"));
    assert!(!is_fen_key(b"fen"));
    assert!(!is_fen_key(b"FE"));
    assert!(!is_fen_key(b"FENX"));
    assert!(!is_fen_key(b""));
}

#[test]
fn outcome_names_the_winner() {
    let mut chunk = new_chunk();
    chunk.begin_game();
    chunk.outcome(Some(Outcome::Decisive { winner: Color::White }));
    assert_eq!(chunk.result(), Some(Winner::White));
    chunk.try_outcome(Some(Outcome::Decisive { winner: Color::Black })).unwrap();
    assert_eq!(chunk.result(), Some(Winner::Black));
    chunk.try_outcome(Some(Outcome::Draw)).unwrap();
    assert_eq!(chunk.result(), Some(Winner::Draw));
    assert_eq!(chunk.try_outcome(None).unwrap_err(), Fault::MissingOutcome);
    assert_eq!(chunk.result(), Some(Winner::Draw));
}

#[test]
fn end_game_without_outcome_is_a_fault() {
    let mut chunk = new_chunk();
    chunk.begin_game();
    chunk.try_san(b"e4").unwrap();
    assert_eq!(chunk.end_game().unwrap_err(), Fault::MissingOutcome);
    assert_eq!(chunk.state_count(), 1);
}

#[test]
fn end_game_hands_out_the_game_and_its_file_name() {
    let mut chunk = new_chunk();
    chunk.begin_game();
    chunk.try_san(b"e4").unwrap();
    chunk.try_san(b"e5").unwrap();
    chunk.try_outcome(Some(Outcome::Decisive { winner: Color::Black })).unwrap();
    let artifact = chunk.end_game().unwrap();
    assert_eq!(artifact.file_name, "game_0.gz");
    assert_eq!(artifact.game.winner, Winner::Black);
    assert_eq!(artifact.game.states.len(), 2);
    assert_eq!(chunk.state_count(), 0);
    assert_eq!(chunk.game_id(), 0);
}

#[test]
fn variations_are_skipped() {
    assert!(new_chunk().begin_variation());
}

#[test]
fn game_without_result_is_a_fault() {
    let driver = Driver::read("1. e4 e5 2. Nf3 *");
    assert_eq!(driver.fault, Some(Fault::MissingOutcome));
    assert!(driver.finished.is_empty());
}

#[test]
fn unparseable_fen_falls_back_to_the_standard_position() {
    let driver = Driver::read("[FEN \"this is no position\"]\n\n1. e4 e5 1-0\n");
    assert_eq!(driver.fault, None);
    assert_eq!(driver.finished.len(), 1);
    let game = &driver.finished[0].game;
    assert_eq!(game.states.len(), 2);
    assert_eq!(game.states[0].position.white.types, WHITE_START_TYPES.to_vec());
    assert_eq!(game.states[0].position.white.indices, WHITE_START_SQUARES.to_vec());
    assert_eq!(game.states[0].position.black.indices, BLACK_START_SQUARES.to_vec());
    assert_eq!(game.winner, Winner::White);
}

#[test]
fn illegal_fen_falls_back_to_the_standard_position() {
    let driver = Driver::read("[FEN \"8/8/8/8/8/8/8/8 w - - 0 1\"]\n\n1. e4 1/2-1/2\n");
    assert_eq!(driver.fault, None);
    let game = &driver.finished[0].game;
    assert_eq!(game.states[0].position.white.indices, WHITE_START_SQUARES.to_vec());
    assert_eq!(game.winner, Winner::Draw);
}

#[test]
fn only_the_main_line_is_recorded() {
    let driver = Driver::read("1. e4 (1. d4 d5 2. c4) 1... e5 0-1\n");
    assert_eq!(driver.fault, None);
    let game = &driver.finished[0].game;
    assert_eq!(game.states.len(), 2);
    assert_eq!(one_hot_index(&game.states[0].policy), 322);
    assert_eq!(one_hot_index(&game.states[1].policy), 1498);
    assert_eq!(game.states[1].position.white.indices[7], 28);
    assert_eq!(game.winner, Winner::Black);
}

#[test]
fn two_games_give_two_files() {
    let driver = Driver::read("1. e4 e5 1-0\n\n1. d4 d5 2. c4 1/2-1/2\n");
    assert_eq!(driver.fault, None);
    assert_eq!(driver.finished.len(), 2);
    assert_eq!(driver.finished[0].file_name, "game_0.gz");
    assert_eq!(driver.finished[1].file_name, "game_1.gz");
    assert_eq!(driver.finished[0].game.states.len(), 2);
    assert_eq!(driver.finished[1].game.states.len(), 3);
    assert_eq!(driver.finished[0].game.winner, Winner::White);
    assert_eq!(driver.finished[1].game.winner, Winner::Draw);
    let second = &driver.finished[1].game;
    assert_eq!(second.states[0].position.white.indices, WHITE_START_SQUARES.to_vec());
    assert_eq!(one_hot_index(&second.states[0].policy), 293);
}

#[test]
fn illegal_move_in_a_transcript_is_a_fault() {
    let driver = Driver::read("1. e4 e5 2. Ke3 1-0\n");
    assert_eq!(driver.fault, Some(Fault::IllegalMove));
}

#[test]
fn written_game_reads_back_with_start_position_and_winner() {
    let driver = Driver::read("1. e4 e5 2. Nf3 0-1\n");
    let artifact = &driver.finished[0];
    let document = encode_game(&artifact.game).unwrap();
    let data = compress(&document).unwrap();
    assert_eq!(&data[..3], &[0x1f, 0x8b, 8]);
    assert_ne!(data, document);
    let read_back = gunzip(&data);
    assert_eq!(read_back, document);

    let game = flatbuffers::get_root::<Table<'_>>(&read_back);
    assert_eq!(byte_at(&game, 6), 1);
    let states = game
        .get::<ForwardsUOffset<Vector<'_, ForwardsUOffset<Table<'_>>>>>(4, None)
        .unwrap();
    assert_eq!(states.len(), 3);

    let first = states.get(0);
    assert!(first.get::<ForwardsUOffset<Table<'_>>>(8, None).is_none());
    let position = table_at(&first, 4);
    let white = table_at(&position, 4);
    assert_eq!(bytes_at(&white, 4), START_TYPE_CODES.to_vec());
    assert_eq!(bytes_at(&white, 6), WHITE_START_SQUARES.to_vec());
    let black = table_at(&position, 6);
    assert_eq!(bytes_at(&black, 4), START_TYPE_CODES.to_vec());
    assert_eq!(bytes_at(&black, 6), BLACK_START_SQUARES.to_vec());
    assert_eq!(byte_at(&position, 8), 0);
    assert_eq!(
        [byte_at(&position, 10), byte_at(&position, 12), byte_at(&position, 14)],
        [1, 1, 1]
    );
    assert_eq!(byte_at(&position, 16), 1);
    assert_eq!(byte_at(&position, 18), 0);
    assert_eq!(byte_at(&position, 20), 0);

    let policy = table_at(&first, 6);
    let index: Vec<u16> =
        policy.get::<ForwardsUOffset<Vector<'_, u16>>>(4, None).unwrap().iter().collect();
    let probability: Vec<f32> =
        policy.get::<ForwardsUOffset<Vector<'_, f32>>>(6, None).unwrap().iter().collect();
    assert_eq!(index, artifact.game.states[0].policy.index);
    assert_eq!(probability.len(), 20);
    assert_eq!(probability.iter().sum::<f32>(), 1.0);
    assert_eq!(probability.iter().filter(|p| **p == 1.0).count(), 1);
    assert_eq!(probability.iter().filter(|p| **p == 0.0).count(), 19);
    let played = probability.iter().position(|p| *p == 1.0).unwrap();
    assert_eq!(index[played], 322);

    let second = states.get(1);
    assert_eq!(byte_at(&table_at(&second, 4), 18), 1);
}

#[test]
fn written_game_reads_back_with_its_custom_start() {
    let driver = Driver::read(
        "[FEN \"4k3/8/8/8/8/8/4P3/4K3 w - - 0 1\"]\n\n1. e4 Kd7 1/2-1/2\n",
    );
    assert_eq!(driver.fault, None);
    let document = encode_game(&driver.finished[0].game).unwrap();
    let read_back = gunzip(&compress(&document).unwrap());
    let game = flatbuffers::get_root::<Table<'_>>(&read_back);
    assert_eq!(byte_at(&game, 6), 2);
    let states = game
        .get::<ForwardsUOffset<Vector<'_, ForwardsUOffset<Table<'_>>>>>(4, None)
        .unwrap();
    assert_eq!(states.len(), 2);
    let position = table_at(&states.get(0), 4);
    assert_eq!(bytes_at(&table_at(&position, 4), 4), vec![0, 5]);
    assert_eq!(bytes_at(&table_at(&position, 4), 6), vec![12, 4]);
    assert_eq!(bytes_at(&table_at(&position, 6), 4), vec![5]);
    assert_eq!(bytes_at(&table_at(&position, 6), 6), vec![60]);
    assert_eq!(
        [byte_at(&position, 10), byte_at(&position, 12), byte_at(&position, 14)],
        [0, 0, 0]
    );
    assert_eq!(byte_at(&position, 16), 0);
}

#[test]
fn game_won_by_white_leaves_the_winner_slot_empty() {
    let game = Game { states: Vec::new(), winner: Winner::White };
    let document = encode_game(&game).unwrap();
    let root = flatbuffers::get_root::<Table<'_>>(&document);
    assert!(root.get::<u8>(6, None).is_none());
    let states = root
        .get::<ForwardsUOffset<Vector<'_, ForwardsUOffset<Table<'_>>>>>(4, None)
        .unwrap();
    assert_eq!(states.len(), 0);
}

#[test]
fn document_holds_every_field_of_a_state() {
    let state = State {
        position: Position {
            white: Pieces { types: vec![PieceType::Queen, PieceType::King], indices: vec![3, 4] },
            black: Pieces { types: vec![PieceType::Rook], indices: vec![63] },
            repetitions: 2,
            us_ooo: true,
            us_oo: false,
            them_ooo: false,
            them_oo: true,
            side_to_move: Side::Black,
            rule_50: 7,
        },
        policy: Policy { index: vec![1857, 0, 65535], probability: vec![0, 1, 0] },
    };
    let game = Game { states: vec![state], winner: Winner::Draw };
    let document = encode_game(&game).unwrap();
    let root = flatbuffers::get_root::<Table<'_>>(&document);
    assert_eq!(byte_at(&root, 6), 2);
    let states = root
        .get::<ForwardsUOffset<Vector<'_, ForwardsUOffset<Table<'_>>>>>(4, None)
        .unwrap();
    let position = table_at(&states.get(0), 4);
    assert_eq!(bytes_at(&table_at(&position, 4), 4), vec![4, 5]);
    assert_eq!(bytes_at(&table_at(&position, 4), 6), vec![3, 4]);
    assert_eq!(bytes_at(&table_at(&position, 6), 4), vec![3]);
    assert_eq!(bytes_at(&table_at(&position, 6), 6), vec![63]);
    let scalars: Vec<u8> = (4..=10).map(|field| byte_at(&position, 2 * field)).collect();
    assert_eq!(scalars, vec![2, 1, 0, 0, 1, 1, 7]);
    let policy = table_at(&states.get(0), 6);
    let index: Vec<u16> =
        policy.get::<ForwardsUOffset<Vector<'_, u16>>>(4, None).unwrap().iter().collect();
    let bits: Vec<u32> =
        policy.get::<ForwardsUOffset<Vector<'_, u32>>>(6, None).unwrap().iter().collect();
    assert_eq!(index, vec![1857, 0, 65535]);
    assert_eq!(bits, vec![0, 0x3F80_0000, 0]);
    assert_eq!(f32::from_bits(bits[1]), 1.0);
}

#[test]
fn codes_and_bits_follow_the_records() {
    let kinds = [
        PieceType::Pawn,
        PieceType::Knight,
        PieceType::Bishop,
        PieceType::Rook,
        PieceType::Queen,
        PieceType::King,
    ];
    assert_eq!(piece_type_codes(&kinds), vec![0, 1, 2, 3, 4, 5]);
    assert_eq!(probabilities_bits(&[0, 1, 1, 0]), vec![0, 0x3F80_0000, 0x3F80_0000, 0]);
    assert!(piece_type_codes(&[]).is_empty());
}

#[test]
fn compression_fault_is_reported() {
    assert_eq!(compressed(None).unwrap_err(), Fault::Compression);
    assert_eq!(compressed(Some(vec![1, 2, 3])).unwrap(), vec![1, 2, 3]);
    assert_eq!(gunzip(&compress(&[]).unwrap()), Vec::<u8>::new());
    assert_eq!(gunzip(&compress(&[9; 1000]).unwrap()), vec![9; 1000]);
    assert_eq!(compress(b"abc").unwrap(), compress(b"abc").unwrap());
}

#[test]
fn state_is_built_from_what_the_engine_tells() {
    let list = action_space();
    let table = move_table();
    let pieces = [
        lcpgn::board::PlacedPiece { square: 12, color: Color::White, role: Role::Pawn },
        lcpgn::board::PlacedPiece { square: 4, color: Color::White, role: Role::King },
        lcpgn::board::PlacedPiece { square: 60, color: Color::Black, role: Role::King },
    ];
    let legal = [
        Move { from: Some(12), to: 20, promotion: None },
        Move { from: Some(12), to: 28, promotion: None },
    ];
    let state = record_state(&pieces, 0, Color::White, &legal, &legal[1], &table).unwrap();
    assert_eq!(state.position.white.indices, vec![12, 4]);
    assert_eq!(state.position.black.indices, vec![60]);
    assert_eq!(state.policy.index, vec![list.iter().position(|e| e == "e2e3").unwrap() as u16, 322]);
    assert_eq!(state.policy.probability, vec![0, 1]);
    let drop = Move { from: None, to: 20, promotion: None };
    assert_eq!(
        record_state(&pieces, 0, Color::White, &legal, &drop, &table).unwrap_err(),
        Fault::UnencodableMove
    );
    let other = Move { from: Some(4), to: 5, promotion: None };
    assert_eq!(
        record_state(&pieces, 0, Color::White, &legal, &other, &table).unwrap_err(),
        Fault::MoveNotLegal
    );
    let black_rook = Move { from: Some(8), to: 0, promotion: Some(Role::Rook) };
    assert_eq!(
        record_state(&pieces, 0, Color::Black, &[legal[0], black_rook], &legal[0], &table)
            .unwrap_err(),
        Fault::UnlistedMove
    );
}

#[test]
fn position_with_a_move_that_the_list_does_not_name_is_a_fault() {
    let mut chunk = new_chunk();
    chunk.begin_game();
    chunk.header(b"FEN", b"4k3/8/8/8/8/8/1p6/4K3 b - - 0 1");
    assert_eq!(chunk.try_san(b"Kd7").unwrap_err(), Fault::UnlistedMove);
    assert_eq!(chunk.state_count(), 0);
    assert_eq!(chunk.pieces(Color::Black).indices, vec![9, 60]);
    chunk.header(b"FEN", b"4k3/1P6/8/8/8/8/8/4K3 w - - 0 1");
    chunk.try_san(b"b8=Q+").unwrap();
    assert_eq!(one_hot_index(&chunk.states()[0].policy), 1801);
}

#[test]
fn move_with_its_conditions_met_is_recorded() {
    let mut chunk = new_chunk();
    chunk.begin_game();
    chunk.san(b"e4").unwrap();
    chunk.san(b"c5").unwrap();
    assert_eq!(chunk.state_count(), 2);
    assert_eq!(one_hot_index(&chunk.states()[0].policy), 322);
}

#[test]
fn fen_with_too_many_rank_separators_is_not_read() {
    let mut chunk = new_chunk();
    chunk.begin_game();
    let mut text = "8/".repeat(136);
    text.push_str("[]");
    assert_eq!(text.len(), 274);
    assert_eq!(count_slashes(text.as_bytes()), 136);
    assert!(position_from_fen(text.as_bytes()).is_none());
    chunk.header(b"FEN", text.as_bytes());
    assert_eq!(chunk.pieces(Color::White).indices, WHITE_START_SQUARES.to_vec());
    let mut shorter = "8/".repeat(135);
    shorter.push_str("[]");
    assert_eq!(count_slashes(shorter.as_bytes()), 135);
    chunk.header(b"FEN", shorter.as_bytes());
    assert_eq!(chunk.pieces(Color::White).indices, WHITE_START_SQUARES.to_vec());
}

#[test]
fn long_fen_that_sets_up_a_position_is_read() {
    let mut chunk = new_chunk();
    chunk.begin_game();
    let mut text = String::from("4k3/8/8/8/8/8/4P3/4K3 w - - 0 ");
    while text.len() < 400 {
        text.push('0');
    }
    text.push('1');
    chunk.header(b"FEN", text.as_bytes());
    assert_eq!(chunk.pieces(Color::White).indices, vec![12, 4]);
    assert_eq!(chunk.pieces(Color::Black).indices, vec![60]);
}

#[test]
fn fen_without_one_king_for_each_side_sets_up_nothing() {
    for text in [
        "8/8/8/3pP3/8/8/8/8 w - d6 0 1",
        "4k3/8/8/3pP3/8/8/8/8 w - d6 0 1",
        "4k3/8/8/3pP3/8/8/8/3KK3 w - d6 0 1",
        "4k3/8/8/3pP3/8/8/8/4K~3 w - d6 0 1",
        "8/8/8/8/3Pp3/8/8/4K3 b - d3 0 1",
        "4k3/8/8/8/8/8/8/8 w - - 0 1",
        "4kk2/8/8/8/8/8/8/4K3 w - - 0 1",
    ] {
        assert!(position_from_fen(text.as_bytes()).is_none(), "{}", text);
        let mut chunk = new_chunk();
        chunk.begin_game();
        chunk.header(b"FEN", text.as_bytes());
        assert_eq!(chunk.pieces(Color::White).indices, WHITE_START_SQUARES.to_vec());
        assert_eq!(chunk.pieces(Color::Black).indices, BLACK_START_SQUARES.to_vec());
    }
    let mut chunk = new_chunk();
    chunk.begin_game();
    chunk.header(b"FEN", b"4k3/8/8/3pP3/8/8/8/4K3 w - d6 0 1");
    assert_eq!(chunk.pieces(Color::White).indices, vec![36, 4]);
    chunk.try_san(b"exd6").unwrap();
    assert_eq!(chunk.pieces(Color::Black).indices, vec![60]);
}

#[test]
fn kings_are_counted_on_the_boards() {
    let one = KingBoards { kings: (1 << 4) | (1 << 60), white: 0xffff, black: 0xffff << 48, promoted: 0 };
    assert!(has_one_king_each(&one));
    assert!(!has_one_king_each(&KingBoards { kings: 1 << 60, ..one }));
    assert!(!has_one_king_each(&KingBoards { kings: (1 << 4) | (1 << 5) | (1 << 60), ..one }));
    assert!(!has_one_king_each(&KingBoards { promoted: 1 << 4, ..one }));
    assert!(!has_one_king_each(&KingBoards { kings: 0, ..one }));
    assert!(is_single(1) && is_single(1 << 63) && !is_single(0) && !is_single(3));
    assert_eq!(count_slashes(b""), 0);
    assert_eq!(count_slashes(b"8/8/8/8/8/8/8/8 w - - 0 1"), 7);
}
