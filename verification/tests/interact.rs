use ed25519_dalek::SigningKey;
use mod_images::interact::{
    register_commands, ApplicationIntegrationType, Command, CommandType, InteractionContextType,
    check_image, check_standing, command, find_target, interact, plan_upload, select_images,
    unsupported, upload_attachments, Attachment, CommandData, CommandOutcome, EmbedField,
    InteractOutcome, Interaction, InteractionData, InteractionResponse, InteractionType, Message,
    PartialMember, Response, UploadBatch, UploadLink, EPHEMERAL, MODERATE_MEMBERS, NO_STANDING,
    UPLOAD_COMMAND_NAME,
};
use mod_images::state::Discord;
use mod_images::{AppState, Error};

const GUILD: u64 = 9000;

fn service() -> AppState {
    let key = hex::encode(SigningKey::from_bytes(&[7u8; 32]).verifying_key().to_bytes());
    let discord = Discord::new(555, key.as_bytes()).ok().unwrap();
    AppState::new(GUILD, discord, String::new(), "https://img.example.com/").ok().unwrap()
}

fn attachment(content_type: Option<&str>, url: &str) -> Attachment {
    Attachment { content_type: content_type.map(str::to_string), url: url.to_string() }
}

fn message(id: u64) -> Message {
    Message {
        id,
        attachments: vec![
            attachment(Some("image/png"), "https://cdn/a.png"),
            attachment(Some("text/plain"), "https://cdn/b.txt"),
            attachment(None, "https://cdn/c"),
            attachment(Some("image/jpeg; charset=x"), "https://cdn/d.jpg"),
        ],
    }
}

fn command_on(target: u64, messages: Vec<Message>) -> Interaction {
    Interaction {
        kind: InteractionType::ApplicationCommand,
        guild_id: Some(GUILD),
        member: Some(PartialMember { permissions: Some(MODERATE_MEMBERS | 1) }),
        data: Some(InteractionData::ApplicationCommand(CommandData {
            target_id: Some(target),
            resolved: Some(messages),
        })),
    }
}

fn reply(description: &str) -> InteractionResponse {
    InteractionResponse::ChannelMessageWithSource {
        flags: 64,
        description: description.to_string(),
        fields: vec![],
    }
}

#[test]
fn constants_are_the_platforms() {
    assert_eq!(UPLOAD_COMMAND_NAME, "Save Attached Images");
    assert_eq!(MODERATE_MEMBERS, 1 << 40);
    assert_eq!(EPHEMERAL, 1 << 6);
}

#[test]
fn response_collects_fields_in_order() {
    let mut response = Response::new("summary".to_string());
    assert_eq!(response.description(), "summary");
    assert!(response.fields().is_empty());
    response.add_field("Skipped".to_string(), "2".to_string());
    response.add_field("Failed".to_string(), "1".to_string());
    assert_eq!(response.description(), "summary");
    assert_eq!(
        response.fields(),
        &vec![
            ("Skipped".to_string(), "2".to_string()),
            ("Failed".to_string(), "1".to_string())
        ]
    );
}

#[test]
fn response_renders_as_an_ephemeral_embed() {
    let mut response = Response::new("summary".to_string());
    response.add_field("Skipped".to_string(), "2".to_string());
    response.add_field("Failed".to_string(), "1".to_string());
    assert_eq!(
        response.interaction_response(),
        InteractionResponse::ChannelMessageWithSource {
            flags: 64,
            description: "summary".to_string(),
            fields: vec![
                EmbedField { inline: true, name: "Skipped".to_string(), value: "2".to_string() },
                EmbedField { inline: true, name: "Failed".to_string(), value: "1".to_string() },
            ],
        }
    );
    assert_eq!(Response::new(String::new()).interaction_response(), reply(""));
}

#[test]
fn unsupported_says_so() {
    assert_eq!(unsupported(), reply("Unsupported interaction kind"));
}

#[test]
fn standing_needs_guild_member_and_permission() {
    let good = command_on(1, vec![]);
    assert!(check_standing(GUILD, &good));
    assert!(!check_standing(GUILD + 1, &good));
    let mut other = good.clone();
    other.guild_id = None;
    assert!(!check_standing(GUILD, &other));
    let mut other = good.clone();
    other.guild_id = Some(GUILD - 1);
    assert!(!check_standing(GUILD, &other));
    let mut other = good.clone();
    other.member = None;
    assert!(!check_standing(GUILD, &other));
    let mut other = good.clone();
    other.member = Some(PartialMember { permissions: None });
    assert!(!check_standing(GUILD, &other));
    let mut other = good.clone();
    other.member = Some(PartialMember { permissions: Some(!MODERATE_MEMBERS) });
    assert!(!check_standing(GUILD, &other));
    let mut other = good;
    other.member = Some(PartialMember { permissions: Some(u64::MAX) });
    assert!(check_standing(GUILD, &other));
}

#[test]
fn images_are_told_by_their_content_type() {
    assert!(check_image(&attachment(Some("image/png"), "u")));
    assert!(check_image(&attachment(Some("application/x-image"), "u")));
    assert!(!check_image(&attachment(Some("Image/PNG"), "u")));
    assert!(!check_image(&attachment(Some("video/mp4"), "u")));
    assert!(!check_image(&attachment(Some(""), "u")));
    assert!(!check_image(&attachment(None, "image.png")));
}

#[test]
fn target_is_found_by_its_id() {
    let interaction = command_on(2, vec![message(1), message(2), message(3)]);
    assert_eq!(find_target(&interaction).ok().unwrap().id, 2);
}

#[test]
fn first_message_of_an_id_wins() {
    let mut first = message(5);
    first.attachments.truncate(1);
    let interaction = command_on(5, vec![message(4), first.clone(), message(5)]);
    assert_eq!(find_target(&interaction), Ok(&first));
}

#[test]
fn missing_parts_of_a_command_are_told_apart() {
    let mut interaction = command_on(1, vec![message(1)]);
    interaction.data = None;
    assert_eq!(find_target(&interaction), Err(Error::MissingCommandData));
    interaction.data = Some(InteractionData::MessageComponent);
    assert_eq!(find_target(&interaction), Err(Error::MissingCommandData));
    interaction.data = Some(InteractionData::ModalSubmit);
    assert_eq!(find_target(&interaction), Err(Error::MissingCommandData));
    interaction.data = Some(InteractionData::ApplicationCommand(CommandData {
        target_id: None,
        resolved: Some(vec![message(1)]),
    }));
    assert_eq!(find_target(&interaction), Err(Error::MissingTarget));
    interaction.data = Some(InteractionData::ApplicationCommand(CommandData {
        target_id: Some(1),
        resolved: None,
    }));
    assert_eq!(find_target(&interaction), Err(Error::NoResolvedData));
    assert_eq!(find_target(&command_on(9, vec![message(1)])), Err(Error::MessageNotFound));
    assert_eq!(find_target(&command_on(9, vec![])), Err(Error::MessageNotFound));
}

#[test]
fn images_are_numbered_in_order_and_the_rest_counted() {
    let batch = select_images("upid".to_string(), &message(1).attachments);
    assert_eq!(
        batch,
        UploadBatch {
            upload_id: "upid".to_string(),
            links: vec![
                UploadLink { upload_seq: 0, url: "https://cdn/a.png".to_string() },
                UploadLink { upload_seq: 1, url: "https://cdn/d.jpg".to_string() },
            ],
            skipped_ctype: 2,
        }
    );
    let none = select_images("x".to_string(), &vec![]);
    assert_eq!(none, UploadBatch { upload_id: "x".to_string(), links: vec![], skipped_ctype: 0 });
}

#[test]
fn user_without_standing_is_told_so() {
    let mut interaction = command_on(1, vec![message(1)]);
    interaction.guild_id = Some(GUILD + 1);
    let outcome = plan_upload(&service(), &interaction, "upid".to_string());
    assert_eq!(outcome, Ok(CommandOutcome::Reply(Response::new(NO_STANDING.to_string()))));
    assert!(NO_STANDING.starts_with("There's no good way to enforce"));
    assert!(NO_STANDING.ends_with("outside the main server."));
}

#[test]
fn standing_is_checked_before_the_command_is_read() {
    let mut interaction = command_on(1, vec![]);
    interaction.member = None;
    interaction.data = None;
    let outcome = plan_upload(&service(), &interaction, "upid".to_string());
    assert!(matches!(outcome, Ok(CommandOutcome::Reply(_))));
}

#[test]
fn plan_selects_the_images_of_the_target() {
    let interaction = command_on(2, vec![message(1), message(2)]);
    let outcome = plan_upload(&service(), &interaction, "upid".to_string());
    let expected = select_images("upid".to_string(), &message(2).attachments);
    assert_eq!(outcome, Ok(CommandOutcome::Upload(expected)));
}

#[test]
fn plan_fails_without_a_target() {
    let outcome = plan_upload(&service(), &command_on(7, vec![message(1)]), "upid".to_string());
    assert_eq!(outcome, Err(Error::MessageNotFound));
}

#[test]
fn upload_ids_are_16_fresh_letters_and_digits() {
    let interaction = command_on(1, vec![message(1)]);
    let first = match upload_attachments(&service(), &interaction) {
        Ok(CommandOutcome::Upload(batch)) => batch,
        other => panic!("unexpected outcome {other:?}"),
    };
    let second = match upload_attachments(&service(), &interaction) {
        Ok(CommandOutcome::Upload(batch)) => batch,
        other => panic!("unexpected outcome {other:?}"),
    };
    assert_eq!(first.upload_id.len(), 16);
    assert!(first.upload_id.chars().all(|c| c.is_ascii_alphanumeric()));
    assert_ne!(first.upload_id, second.upload_id);
    assert_eq!(first.links, second.links);
    assert_eq!(first.skipped_ctype, 2);
}

#[test]
fn report_counts_uploads_skips_and_failures() {
    let state = service();
    let batch = select_images("upid".to_string(), &message(1).attachments);
    let mut expected =
        Response::new("Uploaded 2 attachments: <https://img.example.com/upid/>".to_string());
    expected.add_field("Skipped".to_string(), "2".to_string());
    assert_eq!(batch.report(&state, &vec![true, true]), expected);
    let mut expected =
        Response::new("Uploaded 1 attachments: <https://img.example.com/upid/>".to_string());
    expected.add_field("Skipped".to_string(), "2".to_string());
    expected.add_field("Failed".to_string(), "1".to_string());
    assert_eq!(batch.report(&state, &vec![false, true]), expected);
}

#[test]
fn report_without_uploads_finds_nothing() {
    let state = service();
    let batch = UploadBatch { upload_id: "upid".to_string(), links: vec![], skipped_ctype: 0 };
    assert_eq!(batch.report(&state, &vec![]), Response::new("Found no attachments".to_string()));
    let mut expected = Response::new("Found no attachments".to_string());
    expected.add_field("Failed".to_string(), "3".to_string());
    assert_eq!(batch.report(&state, &vec![false, false, false]), expected);
}

#[test]
fn report_writes_large_counts_in_decimal() {
    let state = service();
    let batch = UploadBatch { upload_id: "Ab12".to_string(), links: vec![], skipped_ctype: 120 };
    let mut outcomes = vec![true; 12];
    outcomes.extend(vec![false; 10]);
    let mut expected =
        Response::new("Uploaded 12 attachments: <https://img.example.com/Ab12/>".to_string());
    expected.add_field("Skipped".to_string(), "120".to_string());
    expected.add_field("Failed".to_string(), "10".to_string());
    assert_eq!(batch.report(&state, &outcomes), expected);
}

#[test]
fn failed_command_is_reported_to_the_user() {
    let outcome = command(&service(), &command_on(7, vec![message(1)]));
    assert_eq!(
        outcome,
        CommandOutcome::Reply(Response::new(
            "Failed to process your request: Message not sent in resolved data".to_string()
        ))
    );
    let mut interaction = command_on(7, vec![]);
    interaction.data = None;
    assert_eq!(
        command(&service(), &interaction),
        CommandOutcome::Reply(Response::new(
            "Failed to process your request: Discord did not send CommandData!".to_string()
        ))
    );
}

#[test]
fn ping_is_answered_with_pong() {
    let ping = Interaction { kind: InteractionType::Ping, guild_id: None, member: None, data: None };
    assert_eq!(interact(&service(), &ping), InteractOutcome::Respond(InteractionResponse::Pong));
}

#[test]
fn other_interactions_are_unsupported() {
    for kind in [
        InteractionType::MessageComponent,
        InteractionType::ApplicationCommandAutocomplete,
        InteractionType::ModalSubmit,
    ] {
        let mut interaction = command_on(1, vec![message(1)]);
        interaction.kind = kind;
        assert_eq!(
            interact(&service(), &interaction),
            InteractOutcome::Respond(reply("Unsupported interaction kind"))
        );
    }
}

#[test]
fn command_interaction_leads_to_uploads_or_a_reply() {
    let state = service();
    match interact(&state, &command_on(1, vec![message(1)])) {
        InteractOutcome::Upload(batch) => assert_eq!(batch.links.len(), 2),
        other => panic!("unexpected outcome {other:?}"),
    }
    let mut stranger = command_on(1, vec![message(1)]);
    stranger.guild_id = None;
    assert_eq!(interact(&state, &stranger), InteractOutcome::Respond(reply(NO_STANDING)));
    assert_eq!(
        interact(&state, &command_on(2, vec![message(1)])),
        InteractOutcome::Respond(reply(
            "Failed to process your request: Message not sent in resolved data"
        ))
    );
}

#[test]
fn one_message_command_is_registered() {
    assert_eq!(
        register_commands(),
        vec![Command {
            name: "Save Attached Images",
            description: "",
            kind: CommandType::Message,
            integration_types: vec![ApplicationIntegrationType::UserInstall],
            contexts: vec![InteractionContextType::Guild, InteractionContextType::PrivateChannel],
        }]
    );
}
