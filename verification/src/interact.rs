//! Answers to the chat platform's interactions. The one command of the
//! service saves the images attached to a message; who may use it, which
//! attachments count and what is reported back is decided here, while the
//! caller fetches and stores the images.

use crate::error::{message_text, Error};
use crate::random::{all_alphanumeric, randstring};
use crate::state::AppState;
use crate::text::{chars_of, contains, decimal, decimal_digits, occurs_in};
use vstd::prelude::*;
use vstd::string::StringExecFns;

verus! {

/// The name under which the upload command is registered.
pub const UPLOAD_COMMAND_NAME: &'static str = "Save Attached Images";

/// The permission bit that lets a member time other members out.
pub const MODERATE_MEMBERS: u64 = 0x100_0000_0000;

/// The message flag that shows a reply to its recipient only.
pub const EPHEMERAL: u64 = 0x40;

/// What is said to a user without standing in the configured guild.
pub const NO_STANDING: &'static str =
    "There's no good way to enforce that only users who have permissions to use a user command can use it, so this has been disabled for now outside the main server.";

/// What is said of an interaction that is neither a ping nor a command.
pub const UNSUPPORTED: &'static str = "Unsupported interaction kind";

/// How a command is invoked.
#[derive(Debug, Clone, Copy, PartialEq, Eq)]
pub enum CommandType {
    /// By typing its name.
    ChatInput,
    /// From the menu of a user.
    User,
    /// From the menu of a message.
    Message,
}

/// Where a command can be installed.
#[derive(Debug, Clone, Copy, PartialEq, Eq)]
pub enum ApplicationIntegrationType {
    GuildInstall,
    UserInstall,
}

/// Where a command can be used.
#[derive(Debug, Clone, Copy, PartialEq, Eq)]
pub enum InteractionContextType {
    Guild,
    BotDm,
    PrivateChannel,
}

/// A command as it is registered with the platform.
#[derive(Debug, Clone, PartialEq, Eq)]
pub struct Command {
    pub name: &'static str,
    pub description: &'static str,
    pub kind: CommandType,
    pub integration_types: Vec<ApplicationIntegrationType>,
    pub contexts: Vec<InteractionContextType>,
}

/// The commands that the service registers, all of them: the upload
/// command, offered on messages to users who installed the application, in
/// guilds and in private channels.
pub fn register_commands() -> (commands: Vec<Command>)
    ensures
        commands@.len() == 1,
        commands@[0].name@ == UPLOAD_COMMAND_NAME@,
        commands@[0].description@ == ""@,
        commands@[0].kind == CommandType::Message,
        commands@[0].integration_types@ == seq![ApplicationIntegrationType::UserInstall],
        commands@[0].contexts@ == seq![
            InteractionContextType::Guild,
            InteractionContextType::PrivateChannel,
        ],
{
    let mut integration_types: Vec<ApplicationIntegrationType> = Vec::new();
    integration_types.push(ApplicationIntegrationType::UserInstall);
    let mut contexts: Vec<InteractionContextType> = Vec::new();
    contexts.push(InteractionContextType::Guild);
    contexts.push(InteractionContextType::PrivateChannel);
    let mut commands: Vec<Command> = Vec::new();
    commands.push(
        Command {
            name: UPLOAD_COMMAND_NAME,
            description: "",
            kind: CommandType::Message,
            integration_types,
            contexts,
        },
    );
    assert(commands@[0].integration_types@ =~= seq![ApplicationIntegrationType::UserInstall]);
    assert(commands@[0].contexts@ =~= seq![
        InteractionContextType::Guild,
        InteractionContextType::PrivateChannel,
    ]);
    commands
}

/// The kinds of interaction that the platform sends.
#[derive(Debug, Clone, Copy, PartialEq, Eq)]
pub enum InteractionType {
    Ping,
    ApplicationCommand,
    MessageComponent,
    ApplicationCommandAutocomplete,
    ModalSubmit,
}

/// A file attached to a message.
#[derive(Debug, Clone, PartialEq, Eq)]
pub struct Attachment {
    pub content_type: Option<String>,
    pub url: String,
}

/// A message that a command refers to.
#[derive(Debug, Clone, PartialEq, Eq)]
pub struct Message {
    pub id: u64,
    pub attachments: Vec<Attachment>,
}

/// What a command was invoked on.
#[derive(Debug, Clone, PartialEq, Eq)]
pub struct CommandData {
    pub target_id: Option<u64>,
    pub resolved: Option<Vec<Message>>,
}

/// The payload of an interaction.
#[derive(Debug, Clone, PartialEq, Eq)]
pub enum InteractionData {
    ApplicationCommand(CommandData),
    MessageComponent,
    ModalSubmit,
}

/// The guild member who caused an interaction.
#[derive(Debug, Clone, Copy, PartialEq, Eq)]
pub struct PartialMember {
    pub permissions: Option<u64>,
}

/// What the service reads of an interaction.
#[derive(Debug, Clone, PartialEq, Eq)]
pub struct Interaction {
    pub kind: InteractionType,
    pub guild_id: Option<u64>,
    pub member: Option<PartialMember>,
    pub data: Option<InteractionData>,
}

/// One field of an embed.
#[derive(Debug, Clone, PartialEq, Eq)]
pub struct EmbedField {
    pub inline: bool,
    pub name: String,
    pub value: String,
}

/// An `EmbedField` as pure text.
pub struct EmbedFieldModel {
    pub inline: bool,
    pub name: Seq<char>,
    pub value: Seq<char>,
}

impl View for EmbedField {
    type V = EmbedFieldModel;

    open spec fn view(&self) -> EmbedFieldModel {
        EmbedFieldModel { inline: self.inline, name: self.name@, value: self.value@ }
    }
}

/// What is sent back to the platform.
#[derive(Debug, Clone, PartialEq, Eq)]
pub enum InteractionResponse {
    /// The answer to a ping.
    Pong,
    /// A message with one embed, in the channel of the interaction.
    ChannelMessageWithSource { flags: u64, description: String, fields: Vec<EmbedField> },
}

/// An `InteractionResponse` as pure text.
pub enum InteractionResponseModel {
    Pong,
    ChannelMessageWithSource { flags: u64, description: Seq<char>, fields: Seq<EmbedFieldModel> },
}

impl View for InteractionResponse {
    type V = InteractionResponseModel;

    open spec fn view(&self) -> InteractionResponseModel {
        match self {
            InteractionResponse::Pong => InteractionResponseModel::Pong,
            InteractionResponse::ChannelMessageWithSource { flags, description, fields } => {
                InteractionResponseModel::ChannelMessageWithSource {
                    flags: *flags,
                    description: description@,
                    fields: fields@.map_values(|f: EmbedField| f@),
                }
            },
        }
    }
}

/// A reply in the making: a description and titled fields below it.
#[derive(Debug, Clone, PartialEq, Eq)]
pub struct Response {
    description: String,
    fields: Vec<(String, String)>,
}

/// A `Response` as pure text.
pub struct ResponseModel {
    pub description: Seq<char>,
    pub fields: Seq<(Seq<char>, Seq<char>)>,
}

impl View for Response {
    type V = ResponseModel;

    closed spec fn view(&self) -> ResponseModel {
        ResponseModel {
            description: self.description@,
            fields: self.fields@.map_values(|f: (String, String)| (f.0@, f.1@)),
        }
    }
}

/// The reply that consists of `description` alone.
pub open spec fn plain_reply(description: Seq<char>) -> ResponseModel {
    ResponseModel { description, fields: Seq::empty() }
}

/// The message that shows `r` to its recipient only, every field inline.
pub open spec fn rendered(r: ResponseModel) -> InteractionResponseModel {
    InteractionResponseModel::ChannelMessageWithSource {
        flags: EPHEMERAL,
        description: r.description,
        fields: r.fields.map_values(
            |f: (Seq<char>, Seq<char>)| EmbedFieldModel { inline: true, name: f.0, value: f.1 },
        ),
    }
}

impl Response {
    /// A reply that says `description` and has no fields yet.
    pub fn new(description: String) -> (response: Response)
        ensures
            response@ == plain_reply(description@),
    {
        let response = Response { description, fields: Vec::new() };
        assert(response@.fields =~= Seq::empty());
        response
    }

    /// Appends the field `title` with the text `content`.
    pub fn add_field(&mut self, title: String, content: String)
        ensures
            final(self)@.description == old(self)@.description,
            final(self)@.fields == old(self)@.fields.push((title@, content@)),
    {
        self.fields.push((title, content));
        assert(self@.fields =~= old(self)@.fields.push((title@, content@)));
    }

    /// The text above the fields.
    pub fn description(&self) -> (description: &String)
        ensures
            description@ == self@.description,
    {
        &self.description
    }

    /// The titled fields, in the order in which they were added.
    pub fn fields(&self) -> (fields: &Vec<(String, String)>)
        ensures
            fields@.map_values(|f: (String, String)| (f.0@, f.1@)) == self@.fields,
    {
        &self.fields
    }

    /// Turns the reply into a message that only its recipient sees, with
    /// every field shown inline.
    pub fn interaction_response(self) -> (response: InteractionResponse)
        ensures
            response@ == rendered(self@),
    {
        let ghost wanted = rendered(self@)->ChannelMessageWithSource_fields;
        let mut fields: Vec<EmbedField> = Vec::new();
        let mut i: usize = 0;
        while i < self.fields.len()
            invariant
                i <= self.fields.len(),
                wanted == rendered(self@)->ChannelMessageWithSource_fields,
                fields@.len() == i,
                forall|k: int| 0 <= k < i ==> (#[trigger] fields@[k])@ == wanted[k],
            decreases self.fields.len() - i,
        {
            let name = self.fields[i].0.clone();
            let value = self.fields[i].1.clone();
            fields.push(EmbedField { inline: true, name, value });
            i += 1;
        }
        let response = InteractionResponse::ChannelMessageWithSource {
            flags: EPHEMERAL,
            description: self.description,
            fields,
        };
        assert(response@->ChannelMessageWithSource_fields =~= wanted);
        response
    }
}

/// The answer to an interaction that the service does not handle.
pub fn unsupported() -> (response: InteractionResponse)
    ensures
        response@ == rendered(plain_reply(UNSUPPORTED@)),
{
    Response::new(String::from_str(UNSUPPORTED)).interaction_response()
}

/// Whether the permission bits `permissions` hold `MODERATE_MEMBERS`.
pub open spec fn moderates(permissions: u64) -> bool {
    permissions & MODERATE_MEMBERS == MODERATE_MEMBERS
}

/// Whether `interaction` comes from a moderator of `guild`: it was caused in
/// that guild, by a member whose permissions are known and include
/// `MODERATE_MEMBERS`.
pub open spec fn has_standing(guild: u64, interaction: Interaction) -> bool {
    &&& interaction.guild_id == Some(guild)
    &&& interaction.member matches Some(member)
    &&& member.permissions matches Some(permissions)
    &&& moderates(permissions)
}

/// Decides `has_standing`.
pub fn check_standing(guild: u64, interaction: &Interaction) -> (ok: bool)
    ensures
        ok == has_standing(guild, *interaction),
{
    let in_guild = match interaction.guild_id {
        Some(g) => g == guild,
        None => false,
    };
    let moderator = match interaction.member {
        Some(member) => match member.permissions {
            Some(permissions) => permissions & MODERATE_MEMBERS == MODERATE_MEMBERS,
            None => false,
        },
        None => false,
    };
    in_guild && moderator
}

/// Whether `attachment` declares a content type that mentions `image`.
pub open spec fn is_image(attachment: Attachment) -> bool {
    attachment.content_type matches Some(content_type) && occurs_in("image"@, content_type@)
}

/// Decides `is_image`.
pub fn check_image(attachment: &Attachment) -> (image: bool)
    ensures
        image == is_image(*attachment),
{
    match &attachment.content_type {
        Some(content_type) => {
            let needle = chars_of("image");
            let hay = chars_of(content_type.as_str());
            contains(&hay, &needle)
        },
        None => false,
    }
}

/// The URLs of the images among `attachments`, in order.
pub open spec fn image_urls(attachments: Seq<Attachment>) -> Seq<Seq<char>>
    decreases attachments.len(),
{
    if attachments.len() == 0 {
        Seq::empty()
    } else if is_image(attachments.last()) {
        image_urls(attachments.drop_last()).push(attachments.last().url@)
    } else {
        image_urls(attachments.drop_last())
    }
}

/// The first of `messages` with the identifier `id`.
pub open spec fn find_message(messages: Seq<Message>, id: u64) -> Option<Message>
    decreases messages.len(),
{
    if messages.len() == 0 {
        None
    } else if messages.first().id == id {
        Some(messages.first())
    } else {
        find_message(messages.drop_first(), id)
    }
}

/// The message that the command of `interaction` was invoked on, or what
/// is missing to tell.
pub open spec fn target_message(interaction: Interaction) -> Result<Message, Error> {
    match interaction.data {
        Some(InteractionData::ApplicationCommand(data)) => match data.target_id {
            None => Err(Error::MissingTarget),
            Some(target) => match data.resolved {
                None => Err(Error::NoResolvedData),
                Some(messages) => match find_message(messages@, target) {
                    None => Err(Error::MessageNotFound),
                    Some(message) => Ok(message),
                },
            },
        },
        _ => Err(Error::MissingCommandData),
    }
}

/// Looks up the message that the command was invoked on.
pub fn find_target(interaction: &Interaction) -> (found: Result<&Message, Error>)
    ensures
        match found {
            Ok(message) => target_message(*interaction) == Ok::<Message, Error>(*message),
            Err(e) => target_message(*interaction) == Err::<Message, Error>(e),
        },
{
    let data = match &interaction.data {
        Some(InteractionData::ApplicationCommand(data)) => data,
        _ => {
            return Err(Error::MissingCommandData);
        },
    };
    let target = match data.target_id {
        Some(target) => target,
        None => {
            return Err(Error::MissingTarget);
        },
    };
    let messages = match &data.resolved {
        Some(messages) => messages,
        None => {
            return Err(Error::NoResolvedData);
        },
    };
    let mut i: usize = 0;
    assert(messages@.skip(0) == messages@);
    while i < messages.len()
        invariant
            i <= messages.len(),
            interaction.data == Some(InteractionData::ApplicationCommand(*data)),
            data.target_id == Some(target),
            data.resolved == Some(*messages),
            find_message(messages@, target) == find_message(messages@.skip(i as int), target),
        decreases messages.len() - i,
    {
        if messages[i].id == target {
            assert(messages@.skip(i as int).first() == messages@[i as int]);
            return Ok(&messages[i]);
        }
        assert(messages@.skip(i as int).drop_first() == messages@.skip(i + 1));
        i += 1;
    }
    Err(Error::MessageNotFound)
}

/// One image to fetch and store.
#[derive(Debug, Clone, PartialEq, Eq)]
pub struct UploadLink {
    /// The place of the image among those of its upload.
    pub upload_seq: u64,
    /// Where the image is fetched from.
    pub url: String,
}

/// An `UploadLink` as pure text.
pub struct UploadLinkModel {
    pub upload_seq: u64,
    pub url: Seq<char>,
}

impl View for UploadLink {
    type V = UploadLinkModel;

    open spec fn view(&self) -> UploadLinkModel {
        UploadLinkModel { upload_seq: self.upload_seq, url: self.url@ }
    }
}

/// The images of one message, to be stored under one identifier.
#[derive(Debug, Clone, PartialEq, Eq)]
pub struct UploadBatch {
    /// The identifier under which the images will be shown together.
    pub upload_id: String,
    /// The images, numbered from zero in the order of the message.
    pub links: Vec<UploadLink>,
    /// How many attachments were passed over for not being images.
    pub skipped_ctype: u64,
}

/// An `UploadBatch` as pure text.
pub struct UploadBatchModel {
    pub upload_id: Seq<char>,
    pub links: Seq<UploadLinkModel>,
    pub skipped_ctype: u64,
}

impl View for UploadBatch {
    type V = UploadBatchModel;

    open spec fn view(&self) -> UploadBatchModel {
        UploadBatchModel {
            upload_id: self.upload_id@,
            links: self.links@.map_values(|l: UploadLink| l@),
            skipped_ctype: self.skipped_ctype,
        }
    }
}

/// The batch that stores the images among `attachments` under `upload_id`.
pub open spec fn batch_of(upload_id: Seq<char>, attachments: Seq<Attachment>) -> UploadBatchModel {
    let urls = image_urls(attachments);
    UploadBatchModel {
        upload_id,
        links: Seq::new(
            urls.len(),
            |i: int| UploadLinkModel { upload_seq: i as u64, url: urls[i] },
        ),
        skipped_ctype: (attachments.len() - urls.len()) as u64,
    }
}

/// Every attachment is either selected or counted as skipped, and the
/// selected ones are numbered from zero without gaps.
pub proof fn law_batch_accounts_for_all(upload_id: Seq<char>, attachments: Seq<Attachment>)
    requires
        attachments.len() <= u64::MAX,
    ensures
        batch_of(upload_id, attachments).links.len() + batch_of(
            upload_id,
            attachments,
        ).skipped_ctype == attachments.len(),
        forall|i: int|
            0 <= i < batch_of(upload_id, attachments).links.len() ==> (#[trigger] batch_of(
                upload_id,
                attachments,
            ).links[i]).upload_seq == i,
        attachments.len() > 0 && is_image(attachments.last()) ==> batch_of(
            upload_id,
            attachments,
        ).links.last().url == attachments.last().url@,
{
    lemma_image_urls_bounded(attachments);
}

proof fn lemma_image_urls_bounded(attachments: Seq<Attachment>)
    ensures
        image_urls(attachments).len() <= attachments.len(),
    decreases attachments.len(),
{
    if attachments.len() > 0 {
        lemma_image_urls_bounded(attachments.drop_last());
    }
}

/// What is to be done about a command.
#[derive(Debug, Clone, PartialEq, Eq)]
pub enum CommandOutcome {
    /// Nothing is stored; this is the answer.
    Reply(Response),
    /// These images are to be fetched and stored, and then reported on.
    Upload(UploadBatch),
}

/// What is to be done about a command, in the abstract.
pub enum CommandPlan {
    /// The user has no standing and is told so.
    Refuse,
    /// The command cannot be carried out.
    Fail(Error),
    /// The images of `message` are stored.
    Upload { message: Message },
}

/// What `guild`'s service does about the command `interaction`.
pub open spec fn command_plan(guild: u64, interaction: Interaction) -> CommandPlan {
    if !has_standing(guild, interaction) {
        CommandPlan::Refuse
    } else {
        match target_message(interaction) {
            Err(e) => CommandPlan::Fail(e),
            Ok(message) => CommandPlan::Upload { message },
        }
    }
}

/// Selects the images of `attachments` for storage under `upload_id`.
pub fn select_images(upload_id: String, attachments: &Vec<Attachment>) -> (batch: UploadBatch)
    ensures
        batch@ == batch_of(upload_id@, attachments@),
{
    let mut links: Vec<UploadLink> = Vec::new();
    let mut skipped_ctype: u64 = 0;
    let mut i: usize = 0;
    while i < attachments.len()
        invariant
            i <= attachments.len(),
            links@.len() == image_urls(attachments@.take(i as int)).len(),
            forall|k: int|
                0 <= k < links@.len() ==> (#[trigger] links@[k])@ == (UploadLinkModel {
                    upload_seq: k as u64,
                    url: image_urls(attachments@.take(i as int))[k],
                }),
            links@.len() + skipped_ctype == i,
        decreases attachments.len() - i,
    {
        proof {
            let next = attachments@.take(i + 1);
            assert(next.drop_last() == attachments@.take(i as int));
            assert(next.last() == attachments@[i as int]);
        }
        if check_image(&attachments[i]) {
            let upload_seq: u64 = links.len() as u64;
            links.push(UploadLink { upload_seq, url: attachments[i].url.clone() });
        } else {
            skipped_ctype += 1;
        }
        i += 1;
    }
    assert(attachments@.take(attachments.len() as int) == attachments@);
    let batch = UploadBatch { upload_id, links, skipped_ctype };
    assert(batch@.links =~= batch_of(upload_id@, attachments@).links);
    batch
}

/// Decides what to do about the command `interaction`, storing any images
/// under `upload_id`: a user without standing is refused with a reply, a
/// command without a resolvable target fails, and otherwise the images of the
/// target message are selected.
pub fn plan_upload(state: &AppState, interaction: &Interaction, upload_id: String) -> (outcome:
    Result<CommandOutcome, Error>)
    ensures
        match command_plan(state@.guild, *interaction) {
            CommandPlan::Refuse => outcome matches Ok(CommandOutcome::Reply(reply)) && reply@
                == plain_reply(NO_STANDING@),
            CommandPlan::Fail(e) => outcome == Err::<CommandOutcome, Error>(e),
            CommandPlan::Upload { message } => outcome matches Ok(CommandOutcome::Upload(batch))
                && batch@ == batch_of(upload_id@, message.attachments@),
        },
{
    if !check_standing(state.guild(), interaction) {
        return Ok(CommandOutcome::Reply(Response::new(String::from_str(NO_STANDING))));
    }
    match find_target(interaction) {
        Err(e) => Err(e),
        Ok(message) => Ok(CommandOutcome::Upload(select_images(upload_id, &message.attachments))),
    }
}

/// Decides what to do about the command `interaction`. Images are stored
/// under a fresh random identifier of 16 letters and digits.
pub fn upload_attachments(state: &AppState, interaction: &Interaction) -> (outcome: Result<
    CommandOutcome,
    Error,
>)
    ensures
        match command_plan(state@.guild, *interaction) {
            CommandPlan::Refuse => outcome matches Ok(CommandOutcome::Reply(reply)) && reply@
                == plain_reply(NO_STANDING@),
            CommandPlan::Fail(e) => outcome == Err::<CommandOutcome, Error>(e),
            CommandPlan::Upload { message } => outcome matches Ok(CommandOutcome::Upload(batch))
                && batch@ == batch_of(batch.upload_id@, message.attachments@)
                && batch.upload_id@.len() == 16 && all_alphanumeric(batch.upload_id@),
        },
{
    plan_upload(state, interaction, randstring(16))
}

/// How many of `outcomes` are successes.
pub open spec fn count_uploaded(outcomes: Seq<bool>) -> nat
    decreases outcomes.len(),
{
    if outcomes.len() == 0 {
        0
    } else if outcomes.last() {
        count_uploaded(outcomes.drop_last()) + 1
    } else {
        count_uploaded(outcomes.drop_last())
    }
}

/// The sentence that sums up an upload of `uploaded` images.
pub open spec fn upload_summary(root_url: Seq<char>, upload_id: Seq<char>, uploaded: nat) -> Seq<
    char,
> {
    if uploaded == 0 {
        "Found no attachments"@
    } else {
        "Uploaded "@ + decimal_digits(uploaded) + " attachments: <"@ + root_url + "/"@ + upload_id
            + "/>"@
    }
}

/// The report on an upload: the summary, then how many attachments were
/// skipped and how many failed, each only if there were any.
pub open spec fn upload_report(
    root_url: Seq<char>,
    upload_id: Seq<char>,
    skipped: nat,
    outcomes: Seq<bool>,
) -> ResponseModel {
    let uploaded = count_uploaded(outcomes);
    let failures = (outcomes.len() - uploaded) as nat;
    let skipped_field = if skipped != 0 {
        seq![("Skipped"@, decimal_digits(skipped))]
    } else {
        Seq::empty()
    };
    let failed_field = if failures != 0 {
        seq![("Failed"@, decimal_digits(failures))]
    } else {
        Seq::empty()
    };
    ResponseModel {
        description: upload_summary(root_url, upload_id, uploaded),
        fields: skipped_field + failed_field,
    }
}

impl UploadBatch {
    /// Reports on the batch once every link has been tried; `outcomes`
    /// says of each attempt whether the image was stored.
    pub fn report(&self, state: &AppState, outcomes: &Vec<bool>) -> (response: Response)
        ensures
            response@ == upload_report(
                state@.root_url,
                self.upload_id@,
                self.skipped_ctype as nat,
                outcomes@,
            ),
    {
        let mut uploaded: usize = 0;
        let mut i: usize = 0;
        while i < outcomes.len()
            invariant
                i <= outcomes.len(),
                uploaded <= i,
                uploaded == count_uploaded(outcomes@.take(i as int)),
            decreases outcomes.len() - i,
        {
            assert(outcomes@.take(i + 1).drop_last() == outcomes@.take(i as int));
            if outcomes[i] {
                uploaded += 1;
            }
            i += 1;
        }
        assert(outcomes@.take(outcomes.len() as int) == outcomes@);
        let failures: usize = outcomes.len() - uploaded;
        let content = if uploaded == 0 {
            String::from_str("Found no attachments")
        } else {
            let mut content = String::from_str("Uploaded ");
            content.append(decimal(uploaded as u64).as_str());
            content.append(" attachments: <");
            content.append(state.root_url().as_str());
            content.append("/");
            content.append(self.upload_id.as_str());
            content.append("/>");
            content
        };
        let mut response = Response::new(content);
        if self.skipped_ctype != 0 {
            response.add_field(String::from_str("Skipped"), decimal(self.skipped_ctype));
        }
        if failures != 0 {
            response.add_field(String::from_str("Failed"), decimal(failures as u64));
        }
        assert(response@.fields =~= upload_report(
            state@.root_url,
            self.upload_id@,
            self.skipped_ctype as nat,
            outcomes@,
        ).fields);
        response
    }
}

/// The reply that tells the user that the command failed with `e`.
pub open spec fn failure_reply(e: Error) -> ResponseModel {
    plain_reply("Failed to process your request: "@ + message_text(e))
}

/// Carries out `upload_attachments` and turns a failure into a reply
/// that names it.
pub fn command(state: &AppState, interaction: &Interaction) -> (outcome: CommandOutcome)
    ensures
        match command_plan(state@.guild, *interaction) {
            CommandPlan::Refuse => outcome matches CommandOutcome::Reply(reply) && reply@
                == plain_reply(NO_STANDING@),
            CommandPlan::Fail(e) => outcome matches CommandOutcome::Reply(reply) && reply@
                == failure_reply(e),
            CommandPlan::Upload { message } => outcome matches CommandOutcome::Upload(batch)
                && batch@ == batch_of(batch.upload_id@, message.attachments@)
                && batch.upload_id@.len() == 16 && all_alphanumeric(batch.upload_id@),
        },
{
    match upload_attachments(state, interaction) {
        Ok(outcome) => outcome,
        Err(source) => {
            let text = String::from_str("Failed to process your request: ").concat(
                source.message().as_str(),
            );
            CommandOutcome::Reply(Response::new(text))
        },
    }
}

/// What is to be done about an interaction.
#[derive(Debug, Clone, PartialEq, Eq)]
pub enum InteractOutcome {
    /// This is the answer.
    Respond(InteractionResponse),
    /// These images are to be fetched and stored; the answer is the
    /// batch's report.
    Upload(UploadBatch),
}

/// Answers a ping with a pong, hands a command to `command`, and calls
/// every other kind of interaction unsupported.
pub fn interact(state: &AppState, interaction: &Interaction) -> (outcome: InteractOutcome)
    ensures
        match interaction.kind {
            InteractionType::Ping => outcome matches InteractOutcome::Respond(r) && r@
                == InteractionResponseModel::Pong,
            InteractionType::ApplicationCommand => match command_plan(
                state@.guild,
                *interaction,
            ) {
                CommandPlan::Refuse => outcome matches InteractOutcome::Respond(r) && r@
                    == rendered(plain_reply(NO_STANDING@)),
                CommandPlan::Fail(e) => outcome matches InteractOutcome::Respond(r) && r@
                    == rendered(failure_reply(e)),
                CommandPlan::Upload { message } => outcome matches InteractOutcome::Upload(batch)
                    && batch@ == batch_of(batch.upload_id@, message.attachments@)
                    && batch.upload_id@.len() == 16 && all_alphanumeric(batch.upload_id@),
            },
            _ => outcome matches InteractOutcome::Respond(r) && r@ == rendered(
                plain_reply(UNSUPPORTED@),
            ),
        },
{
    match interaction.kind {
        InteractionType::Ping => InteractOutcome::Respond(InteractionResponse::Pong),
        InteractionType::ApplicationCommand => match command(state, interaction) {
            CommandOutcome::Reply(reply) => InteractOutcome::Respond(reply.interaction_response()),
            CommandOutcome::Upload(batch) => InteractOutcome::Upload(batch),
        },
        _ => InteractOutcome::Respond(unsupported()),
    }
}

} // verus!
