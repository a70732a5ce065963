use gametorch::cli::{AnimationCommands, Cli, Commands};

#[test]
fn cli_base_url_follows_local_flag() {
    let local = Cli {
        local: true,
        porcelain: false,
        command: Commands::Animations {
            action: AnimationCommands::Get { id: None },
        },
    };
    assert_eq!(local.base_url(), "http://localhost:8000");
    let production = Cli {
        local: false,
        porcelain: true,
        command: Commands::Animations {
            action: AnimationCommands::Regenerate {
                animation_id: "42".to_string(),
            },
        },
    };
    assert_eq!(production.base_url(), "https://gametorch.app");
}
