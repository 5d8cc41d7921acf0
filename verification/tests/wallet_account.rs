use solana_sdk::signature::Keypair;
use solana_sdk::signer::Signer;
use tower_defense::towers::GameState;
use tower_defense::ui::{handle_btn_interaction, MenuAction, MenuScreen};
use tower_defense::wallet::{
    process_tx_tasks, shorten_address, sign_message, wallet_address_display, PlayerAccount,
    PlayerInfo, TaskResult, Wallet, MESSAGE,
};

fn test_secret() -> Vec<u8> {
    (1u8..=32).collect()
}

#[test]
fn signing_the_greeting_verifies_against_its_own_key() {
    let secret = test_secret();
    let message = MESSAGE.as_bytes().to_vec();
    let (sig, valid) = sign_message(&secret, &message);
    assert!(valid);
    assert_eq!(sig.len(), 64);
}

#[test]
fn signing_matches_the_sdk() {
    let secret = test_secret();
    let message = MESSAGE.as_bytes().to_vec();
    let (sig, _) = sign_message(&secret, &message);
    let arr: [u8; 32] = secret.as_slice().try_into().unwrap();
    let keypair = Keypair::new_from_array(arr);
    let expected = keypair.sign_message(message.as_slice());
    assert_eq!(sig.as_slice(), expected.as_array().as_slice());
}

#[test]
fn shortening_keeps_the_ends() {
    let s = shorten_address(&b"ABCDEFGHIJKL".to_vec());
    assert_eq!(s, b"ABCD...IJKL".to_vec());
    let s = shorten_address(&b"12345678".to_vec());
    assert_eq!(s, b"1234...5678".to_vec());
}

#[test]
fn the_displayed_address_matches_the_sdk_spelling() {
    let secret = test_secret();
    let arr: [u8; 32] = secret.as_slice().try_into().unwrap();
    let keypair = Keypair::new_from_array(arr);
    let pubkey = keypair.pubkey().to_bytes().to_vec();
    let shown = wallet_address_display(&pubkey);
    let full = keypair.pubkey().to_string();
    let expected = format!("{}...{}", &full[0..4], &full[full.len() - 4..]);
    assert_eq!(shown, expected.into_bytes());
}

#[test]
fn the_player_address_matches_the_sdk_derivation() {
    let secret = test_secret();
    let arr: [u8; 32] = secret.as_slice().try_into().unwrap();
    let keypair = Keypair::new_from_array(arr);
    let signer_pubkey = keypair.pubkey().to_bytes().to_vec();
    let program_id = vec![2u8; 32];
    let seed = b"player".to_vec();

    let mut info = PlayerInfo::new();
    let (address, bump) = info
        .set_address(&seed, &signer_pubkey, &program_id)
        .expect("a bump exists");
    assert_eq!(info.address, address);

    let program = solana_pubkey::Pubkey::new_from_array([2u8; 32]);
    let (expected, expected_bump) = solana_pubkey::Pubkey::find_program_address(
        &[b"player", keypair.pubkey().to_bytes().as_slice()],
        &program,
    );
    assert_eq!(address, expected.to_bytes().to_vec());
    assert_eq!(bump, expected_bump);

    // Whether the bump search succeeds is a function of the inputs alone,
    // so a second derivation succeeds with the same address and bump.
    let again = info
        .set_address(&seed, &signer_pubkey, &program_id)
        .expect("the same inputs derive again");
    assert_eq!(again, (address, bump));
}

#[test]
fn the_last_played_bytes_read_little_endian() {
    let mut info = PlayerInfo::new();
    assert_eq!(info.last_played_time(), 0);
    info.data.last_played = vec![0x78, 0x56, 0x34, 0x12, 0, 0, 0, 0];
    assert_eq!(info.last_played_time(), 0x12345678);
}

#[test]
fn task_results_update_the_right_state() {
    let mut wallet = Wallet { balance: 0 };
    let mut info = PlayerInfo::new();
    process_tx_tasks(&mut wallet, &mut info, TaskResult::Balance(5_000_000_000));
    assert_eq!(wallet.balance, 5_000_000_000);
    process_tx_tasks(&mut wallet, &mut info, TaskResult::SignatureDone);
    assert_eq!(wallet.balance, 5_000_000_000);
    let record = PlayerAccount {
        wave_reached: 4,
        last_played: vec![1, 0, 0, 0, 0, 0, 0, 0],
        authority: vec![7u8; 32],
    };
    process_tx_tasks(&mut wallet, &mut info, TaskResult::PlayerData(record));
    assert_eq!(info.data.wave_reached, 4);
    assert_eq!(info.last_played_time(), 1);
    assert_eq!(wallet.balance, 5_000_000_000);
}

#[test]
fn menu_buttons_route_the_game() {
    assert_eq!(
        handle_btn_interaction(MenuScreen::StartSign),
        (GameState::HowToPlay, MenuAction::SignMessage)
    );
    assert_eq!(
        handle_btn_interaction(MenuScreen::HowToPlay),
        (GameState::Building, MenuAction::InitializePlayer)
    );
    assert_eq!(
        handle_btn_interaction(MenuScreen::GameOverScreen),
        (GameState::Building, MenuAction::NoAction)
    );
}
