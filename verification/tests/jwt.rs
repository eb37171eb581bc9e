use std::time::{Duration, SystemTime};

use ghommit::clock::{read_clock, read_time, second_from_reading};
use ghommit::config::Config;
use ghommit::github::conversation::{Action, Conversation, Event};
use ghommit::github::request::{CommitMessage, CommittableBranch, CreateCommitOnBranchInput};
use ghommit::github::GitHubClient;
use ghommit::headers::{base_headers, GitHubApiType};
use ghommit::jwt::{describe_signing, Claims};
use jsonwebtoken::EncodingKey;

/// An RSA key that was made for these tests.
const KEY: [&str; 30] = [
    "308204a40201000282010100c4a753585c232bc355348ef739213845e099a5402bb1ce260dee0818",
    "43bdaaafea4abd9b92b1fdafc513233c23b7fae8ef8a4f7e00029bb392c92e0719370af1f950d40c",
    "73e014807bca1539a0beab41bb1cc3e2bada375957c75470660e48c3f5df5b9b38765323106a19cb",
    "35698dd14c0d73dab20b325c699b953e3ef98af9d874cb9e159400c5372d10a899425596325f0b44",
    "6c91ce689f3bcba18b7c50b8feb5badfcc86db5be7d372d6393e7a8956e70fc6acaf4dc938952d6f",
    "f6e5c2a83880151c2a4d600c333b1c8cd182a5d8e34eb4ac1e89af20db89611d5c761d1e51b70aab",
    "2d9f1cd645f8602db4c9d745244b161e3ed983172ea4716a00204f310203010001028201004ed3bb",
    "a6e997f78cdef4a87214e66a062897ae13e0efeef07618fa09afedb123bec8a2e45f93155b85a5bc",
    "33f92560604ad4a8349b907015353b8b45b127cd2d5d80b6df1efbad7c2b22c00b4f91de5804c6ed",
    "064f5bf55fccbdcbed1a1b93b3693555250d26f100572e1094d21e3388b7f194850f6549949d888d",
    "f45b8defd4ade8776ff84dd0742e996fbfcf9cc91723ddbb91361fe28486b0fc64218f2284eb5bb8",
    "f560576e87a9c175ee32af5c6e7d1797e36da76d14a1c86df8f43d7ad333ea1daaba9968f0f55cae",
    "bc880d720637525dd89769a881c8e3d051ab4c1d432891990c7af26ed8632c799096ea0e2541f511",
    "1ee9b5c668d1ede0081d12ba3902818100f6f47778f4e167737cbec7fa7a3eca2110f697cbd0d3e3",
    "64cb0a13694babfe4d93d0b5b850f919747e8ec71d7bcf79c64cea877c79b448fc1cc4300b5117f7",
    "e363c5400935dad7db491c121f892cbd8b6205fb15f9eb4cebdf709ac9f2795e4feca865de19354b",
    "019735b7440691ed77dcccaa316085e854c098146a2b7e6da702818100cbdb376ea06fc7b48d23d4",
    "3c3a73281943e58af77d9e887351a2d41951bb6d918a8041133350f5bc87d64374351b20832cda65",
    "5f9a80ac64f7343720d716f2629d35ae6ad511392ce58b6c551680063e1849475dc4152ce8513b8d",
    "6b9acfc6d2dc0e2407cd8a04ddebb26ae2b2cfceadb95ec7693eb78c31d9b42bfb793c6767028180",
    "0946f9ce03750c4bdc5dd669647a4361a69f7ce85d39f88aeacdc018ee8cd18adc88b4aaedefcdb3",
    "00a62078cd13e84138d67eac806df367f534b1915b44893d739c0f61c9322575c9735282f8c64380",
    "9ef8168ca6ccde20e64df6a2ab873fb1c4f4368f7766f720622bd46cabca839f431e352e91afb620",
    "a8f38da0c76d827502818100c1e311e9c9f606bf16ae4921af85ef51785e4db9ee6465eb286df1c4",
    "d313acb68c4047a4775e3d1abf276ea88c09ecf65626b1dc281ad1dc85b1c7ed1825df0b23f2f69c",
    "ed61a03baf66d7f6659c0653f0cd616f311be2c662dc7d3926d90f85657e9d8e3e535325af12d6ce",
    "1ebbbf1b43ff7d3200509aaa9f20d9e427fee76902818100eb6de8b78d6ade671a0dda494cf02689",
    "7b16bfdba367c13ace33cbbe77515446413792b7af14711287fc6f5977bc477e7308681b31e60c83",
    "87e6f519ea5a89a3ee7f787d1df01f50e1d0d0e6ecd3fa02dbde71adfbd27baa09264391a4bcebae",
    "12eda22347f63656237f0821fd17479fd9c761a58f779e6441ca470a71387b98",
];

fn key() -> EncodingKey {
    let hex = KEY.concat();
    let mut der = Vec::new();
    for i in 0..hex.len() / 2 {
        der.push(u8::from_str_radix(&hex[2 * i..2 * i + 2], 16).unwrap());
    }
    EncodingKey::from_rsa_der(&der)
}

#[test]
fn clock_before_the_epoch() {
    assert_eq!(
        second_from_reading(Err(1_500_000_000)).unwrap_err(),
        "Impossible duration from Unix epoch to now: 1500000000 nanoseconds"
    );
}

#[test]
fn clock_after_the_epoch() {
    assert_eq!(second_from_reading(Ok(1_700_000_000)).unwrap(), 1_700_000_000);
}

#[test]
fn readings_of_given_points_in_time() {
    let epoch = SystemTime::UNIX_EPOCH;

    assert_eq!(read_time(&epoch), Ok(0));
    assert_eq!(read_time(&(epoch + Duration::from_millis(1_999))), Ok(1));
    assert_eq!(read_time(&(epoch + Duration::from_secs(1_700_000_000))), Ok(1_700_000_000));
    assert_eq!(read_time(&(epoch - Duration::from_nanos(1))), Err(1));
    assert_eq!(read_time(&(epoch - Duration::from_millis(1_500))), Err(1_500_000_000));
}

#[test]
fn clock_shows_the_present() {
    let system = || {
        std::time::SystemTime::now().duration_since(std::time::UNIX_EPOCH).unwrap().as_secs()
    };
    let before = system();
    let shown = read_clock().unwrap();
    let second = GitHubClient::unix_epoch_second_now().unwrap() as u64;
    let after = system();

    assert!(before <= shown && shown <= second && second <= after);
}

#[test]
fn claims_expire_after_ten_minutes() {
    let claims = Claims::issued_at(1_700_000_000, 123456).unwrap();

    assert_eq!(claims.iat, 1_700_000_000);
    assert_eq!(claims.exp, 1_700_000_600);
    assert_eq!(claims.iss, "123456");
    assert_eq!(
        claims.to_json().into_string(),
        "{\"iat\":1700000000,\"exp\":1700000600,\"iss\":\"123456\"}"
    );
}

#[test]
fn last_second_with_a_token() {
    assert_eq!(Claims::issued_at(usize::MAX - 600, 1).unwrap().exp, usize::MAX);
    assert_eq!(
        Claims::issued_at(usize::MAX - 599, 1).unwrap_err(),
        format!(
            "Adding ten minutes to now in seconds ({}) resulted in time that is less than now (0)",
            usize::MAX - 599
        )
    );
    assert_eq!(
        Claims::issued_at(usize::MAX, 1).unwrap_err(),
        format!(
            "Adding ten minutes to now in seconds ({}) resulted in time that is less than now (599)",
            usize::MAX
        )
    );
}

#[test]
fn token_of_a_given_second() {
    let key = key();
    let client = GitHubClient {
        github_app_id: 123456,
        github_app_installation_id: 1,
        github_app_private_key: &key,
    };
    let signature = [
        "MAKOScGkgMZNPLp8N-cbcwid2qfmNzq3-ugB9LiGwXtGRgThiFBVlItEPRkuZBHMC0DUfjBiznDIFXwi",
        "rdFD-Ccf9hvu0CqywIFHKW5YlgMqMJI7RjhQHHqmSR4fQDRR6Onr0JDjp4LxajK6PpeQejheUlKGqpRY",
        "oHK_51Ultk5Xp2HX5imDJiRl-sTGKRATNwKCNdyd2XA_Zx9i5OAWD8fQu_d5q_U9kuCTP05iIJv6Nswr",
        "p96W8hscH7rgqQbLXNDhSHu3bnGnygxRYOkrPNSyqf8BlGTvKpgyReUA7zEuRakpV6vgCu0D5FZ7_OHy",
        "PcAi73es1JPSPTlnE8YIIA",
    ]
    .concat();
    let header = "eyJ0eXAiOiJKV1QiLCJhbGciOiJSUzI1NiJ9";
    let claims = "eyJpYXQiOjE3MDAwMDAwMDAsImV4cCI6MTcwMDAwMDYwMCwiaXNzIjoiMTIzNDU2In0";

    assert_eq!(
        client.get_jwt_at(1_700_000_000).unwrap(),
        format!("{}.{}.{}", header, claims, signature)
    );
}

#[test]
fn token_of_the_present_fits_a_header() {
    let key = key();
    let client = GitHubClient {
        github_app_id: 5,
        github_app_installation_id: 1,
        github_app_private_key: &key,
    };
    let token = client.get_jwt().unwrap();

    assert_eq!(token.split('.').count(), 3);
    assert!(base_headers(GitHubApiType::REST, &token).is_ok());
}

#[test]
fn unusable_keys() {
    let secret = EncodingKey::from_secret(b"secret");
    let garbage = EncodingKey::from_rsa_der(b"garbage");
    let client = |key| GitHubClient {
        github_app_id: 5,
        github_app_installation_id: 1,
        github_app_private_key: key,
    };

    assert_eq!(
        client(&secret).get_jwt().unwrap_err(),
        "Unable to create JWT: InvalidAlgorithm"
    );
    assert!(client(&garbage)
        .get_jwt_at(0)
        .unwrap_err()
        .starts_with("Unable to create JWT: RSA key invalid: "));
}

#[test]
fn signing_again_gives_the_same() {
    let sign = |key: &EncodingKey| Claims::issued_at(1_700_000_000, 5).unwrap().sign(key);
    let secret = EncodingKey::from_secret(b"secret");
    let garbage = EncodingKey::from_rsa_der(b"garbage");

    assert!(sign(&key()).is_ok());
    assert_eq!(sign(&key()), sign(&key()));
    assert_eq!(sign(&secret).unwrap_err(), "InvalidAlgorithm");
    assert_eq!(sign(&garbage).unwrap_err(), "RSA key invalid: InvalidEncoding");
}

#[test]
fn signing_outcomes() {
    assert_eq!(describe_signing(Ok("t".to_owned())).unwrap(), "t");
    assert_eq!(
        describe_signing(Err("why".to_owned())).unwrap_err(),
        "Unable to create JWT: why"
    );
}

fn config() -> Config {
    Config {
        git_branch_name: "main".to_owned(),
        git_head_object_id: "c0ffee".to_owned(),
        github_repo_name: "cat".to_owned(),
        github_repo_owner: "octo".to_owned(),
    }
}

/// Begins a conversation and leads it up to where it waits for a JSON web token.
fn up_to_jwt<'c>(client: &GitHubClient, config: &'c Config) -> Conversation<'c> {
    let input = CreateCommitOnBranchInput {
        branch: CommittableBranch {
            repository_name_with_owner: "octo/cat".to_owned(),
            branch_name: "main".to_owned(),
        },
        client_mutation_id: None,
        expected_head_oid: "c0ffee".to_owned(),
        file_changes: None,
        message: CommitMessage { body: None, headline: "less".to_owned() },
    };
    let (mut conversation, _) = client.create_commit_on_branch(config, input);
    // - Nothing is authorized before the clients are there
    assert!(client.authorize(&mut conversation).is_none());
    assert!(conversation.step(Event::Client(Ok(()))).is_some());
    let action = conversation.step(Event::Client(Ok(())));
    assert!(matches!(action, Some(Action::MakeJwt)));
    conversation
}

#[test]
fn token_request_is_authorized_by_the_client() {
    let (key, config) = (key(), config());
    let client = GitHubClient {
        github_app_id: 5,
        github_app_installation_id: 42,
        github_app_private_key: &key,
    };
    let mut conversation = up_to_jwt(&client, &config);
    let before = read_clock().unwrap() as usize;
    let action = client.authorize(&mut conversation);
    let after = read_clock().unwrap() as usize;

    match action {
        Some(Action::Post { url, headers, json }) => {
            assert_eq!(url, "https://api.github.com/app/installations/42/access_tokens");
            assert!(json.is_none());
            let authorization = headers.get("authorization").unwrap().to_str().unwrap();
            assert!((before..=after).any(|now| {
                authorization == format!("Bearer {}", client.get_jwt_at(now).unwrap())
            }));
        }
        _ => panic!("a request should be posted"),
    }
    assert!(client.authorize(&mut conversation).is_none());
}

#[test]
fn unusable_key_ends_the_conversation() {
    let (secret, config) = (EncodingKey::from_secret(b"secret"), config());
    let client = GitHubClient {
        github_app_id: 5,
        github_app_installation_id: 42,
        github_app_private_key: &secret,
    };
    let mut conversation = up_to_jwt(&client, &config);

    match client.authorize(&mut conversation) {
        Some(Action::Finish(outcome)) => {
            assert_eq!(outcome.unwrap_err(), "Unable to create JWT: InvalidAlgorithm")
        }
        _ => panic!("the conversation should be over"),
    }
}
