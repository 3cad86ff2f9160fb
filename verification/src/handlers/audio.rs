//! Audio files: uploading, streaming, removing and listing them.
//!
//! An upload is checked before anything is written: a declared media type
//! that is missing or not accepted fails the request with no row planned and
//! no blob step handed out.

use vstd::prelude::*;

use crate::auth::{admin_flag, authenticate, check_admin, identity_at};
use crate::blobs::{
    blob_location, blob_path, fallback_filename, folder_of, nameless_upload, user_folder,
};
use crate::cascade::{
    audio_deletion_leaves_nothing_behind, audio_deletion_unit, audio_owned_by, plan_audio_deletion,
};
use crate::change::{answers, commits, lists, BlobStep, BlobStepView, Change, ChangeView};
use crate::config::AppState;
use crate::context::{RequestContext, RequestContextView};
use crate::error::{failure, AppError, AppErrorView, ErrorKind};
use crate::media::{accept_media_type, acceptance, served_as, served_media_type};
use crate::models::{views, AudioFile, AudioFileView};
use crate::ordering::{arrange, arranged};
use crate::policy::{authorization, authorize, Action};
use crate::schema::{effect_of_all, violates, Library, Statement, StatementView};
use crate::seqs::first_where;
use crate::store::{constraint_failure, Store};
use crate::tables::{holds, lookup, matching, AudioColumn};
use crate::text::text_of;

verus! {

/// What an upload declares about the file it brings.
#[derive(Debug, PartialEq, Eq)]
pub struct UploadField {
    /// The declared media type, if one is declared.
    pub content_type: Option<String>,
    /// The name of the file, if it has one.
    pub filename: Option<String>,
}

/// The mathematical value of an [`UploadField`].
pub struct UploadFieldView {
    pub content_type: Option<Seq<char>>,
    pub filename: Option<Seq<char>>,
}

impl View for UploadField {
    type V = UploadFieldView;

    open spec fn view(&self) -> UploadFieldView {
        UploadFieldView {
            content_type: match self.content_type {
                Some(t) => Some(t@),
                None => None,
            },
            filename: match self.filename {
                Some(n) => Some(n@),
                None => None,
            },
        }
    }
}

/// The view of an optional upload.
pub open spec fn field_of(field: Option<&UploadField>) -> Option<UploadFieldView> {
    match field {
        Some(f) => Some(f@),
        None => None,
    }
}

/// Where a stored audio file is read from, and the media type under which
/// it is served.
#[derive(Debug, PartialEq, Eq)]
pub struct AudioStream {
    pub path: String,
    pub content_type: String,
}

/// The mathematical value of an [`AudioStream`].
pub struct AudioStreamView {
    pub path: Seq<char>,
    pub content_type: Seq<char>,
}

impl View for AudioStream {
    type V = AudioStreamView;

    open spec fn view(&self) -> AudioStreamView {
        AudioStreamView { path: self.path@, content_type: self.content_type@ }
    }
}

/// The failure that answers an upload that brings no file.
pub open spec fn no_file_uploaded() -> AppErrorView {
    failure(ErrorKind::Validation, "No file uploaded"@)
}

/// The failure that answers a request aimed at an audio file that does not
/// exist.
pub open spec fn audio_not_found() -> AppErrorView {
    failure(ErrorKind::NotFound, "Audio not found"@)
}

/// The audio file with the identifier.
pub open spec fn audio_with_id(v: Library, id: Seq<char>) -> Option<AudioFileView> {
    first_where(v.audio_files, holds::<AudioFile>(AudioColumn::Id, id))
}

/// The path of the blob of an audio file.
pub open spec fn blob_of(audio: AudioFileView) -> Seq<char> {
    blob_path(audio.user_folder, audio.id, audio.filename)
}

/// The row that an upload of `caller` with an accepted media type becomes.
pub open spec fn uploaded_file(
    caller: Seq<char>,
    field: UploadFieldView,
    media_type: Seq<char>,
    context: RequestContextView,
) -> AudioFileView {
    AudioFileView {
        id: context.new_id,
        filename: match field.filename {
            Some(name) => name,
            None => nameless_upload(context.spare_id),
        },
        user_id: caller,
        created_at: context.created_at,
        mime_type: media_type,
        user_folder: folder_of(caller),
    }
}

/// What an upload of `caller` is answered with.
pub open spec fn upload_audio_outcome(
    v: Library,
    caller: Seq<char>,
    field: Option<UploadFieldView>,
    context: RequestContextView,
) -> Result<ChangeView<AudioFileView>, AppErrorView> {
    match field {
        None => Err(no_file_uploaded()),
        Some(f) => match acceptance(f.content_type) {
            Err(e) => Err(e),
            Ok(media_type) => {
                let audio = uploaded_file(caller, f, media_type, context);
                if violates(v, StatementView::InsertAudioFile(audio)) {
                    Err(constraint_failure())
                } else {
                    Ok(
                        ChangeView {
                            reply: audio,
                            unit: seq![StatementView::InsertAudioFile(audio)],
                            blobs: seq![
                                BlobStepView::CreateFolder(folder_of(caller)),
                                BlobStepView::Store(blob_of(audio)),
                            ],
                        },
                    )
                }
            },
        },
    }
}

/// What the request of `caller` for the stream of an audio file is answered
/// with.
pub open spec fn stream_audio_outcome(v: Library, caller: Seq<char>, audio_id: Seq<char>) -> Result<
    AudioStreamView,
    AppErrorView,
> {
    match admin_flag(v, caller) {
        Err(e) => Err(e),
        Ok(is_admin) => match audio_with_id(v, audio_id) {
            None => Err(audio_not_found()),
            Some(audio) => match authorization(Action::ReadAudio, caller, is_admin, audio.user_id) {
                Err(e) => Err(e),
                Ok(_) => Ok(
                    AudioStreamView {
                        path: blob_of(audio),
                        content_type: served_as(audio.mime_type),
                    },
                ),
            },
        },
    }
}

/// What the request of `caller` for the removal of an audio file is
/// answered with.
pub open spec fn delete_audio_outcome(v: Library, caller: Seq<char>, audio_id: Seq<char>) -> Result<
    ChangeView<()>,
    AppErrorView,
> {
    match admin_flag(v, caller) {
        Err(e) => Err(e),
        Ok(is_admin) => match audio_with_id(v, audio_id) {
            None => Err(audio_not_found()),
            Some(audio) => match authorization(
                Action::DeleteAudio,
                caller,
                is_admin,
                audio.user_id,
            ) {
                Err(e) => Err(e),
                Ok(_) => Ok(
                    ChangeView {
                        reply: (),
                        unit: audio_deletion_unit(audio_id),
                        blobs: seq![BlobStepView::Remove(blob_of(audio))],
                    },
                ),
            },
        },
    }
}

/// The audio files of an account, newest first.
pub open spec fn audio_listing(v: Library, user_id: Seq<char>) -> Seq<AudioFileView> {
    arranged::<AudioFile>(audio_owned_by(v, user_id))
}

/// What the request of `caller` for the audio files of an account is
/// answered with.
pub open spec fn get_user_audio_outcome(v: Library, caller: Seq<char>, target: Seq<char>) -> Result<
    Seq<AudioFileView>,
    AppErrorView,
> {
    if caller == target {
        Ok(audio_listing(v, target))
    } else {
        match admin_flag(v, caller) {
            Err(e) => Err(e),
            Ok(is_admin) => match authorization(Action::ListUserAudio, caller, is_admin, target) {
                Err(e) => Err(e),
                Ok(_) => Ok(audio_listing(v, target)),
            },
        }
    }
}

/// Plans the upload of `caller`.
pub fn upload_audio_as(
    caller: &str,
    field: Option<&UploadField>,
    store: &Store,
    context: &RequestContext,
) -> (r: Result<Change<AudioFile>, AppError>)
    ensures
        answers(r, upload_audio_outcome(store@, caller@, field_of(field), context@)),
        commits(store@, r),
{
    let field = match field {
        Some(f) => f,
        None => {
            return Err(AppError::new(ErrorKind::Validation, "No file uploaded"));
        },
    };
    let declared = match &field.content_type {
        Some(t) => Some(t.as_str()),
        None => None,
    };
    let media_type = accept_media_type(declared)?;
    let filename = match &field.filename {
        Some(name) => name.clone(),
        None => fallback_filename(context.spare_id.as_str()),
    };
    let folder = user_folder(caller);
    let path = blob_location(folder.as_str(), context.new_id.as_str(), filename.as_str());
    let audio = AudioFile {
        id: context.new_id.clone(),
        filename,
        user_id: caller.to_owned(),
        created_at: context.created_at,
        mime_type: media_type,
        user_folder: folder.clone(),
    };
    let reply = audio.clone();
    let statement = Statement::InsertAudioFile(audio);
    if store.would_violate(&statement) {
        return Err(AppError::new(ErrorKind::Internal, "Storage constraint violated"));
    }
    let ghost step = statement@;
    let mut unit: Vec<Statement> = Vec::new();
    unit.push(statement);
    let mut blobs: Vec<BlobStep> = Vec::new();
    blobs.push(BlobStep::CreateFolder(folder));
    blobs.push(BlobStep::Store(path));
    proof {
        assert(views(unit@) =~= seq![step]);
        assert(views(blobs@) =~= seq![
            BlobStepView::CreateFolder(folder_of(caller@)),
            BlobStepView::Store(blob_of(reply@)),
        ]);
        assert(seq![step].drop_first() =~= Seq::<StatementView>::empty());
        reveal_with_fuel(effect_of_all, 2);
    }
    Ok(Change { reply, unit, blobs })
}

/// Takes in an audio file for the caller. The declared media type must be
/// one of the accepted ones.
pub fn upload_audio(
    field: Option<&UploadField>,
    state: &AppState,
    authorization: Option<&str>,
    context: &RequestContext,
) -> (r: Result<Change<AudioFile>, AppError>)
    ensures
        answers(
            r,
            match identity_at(text_of(authorization), state.secret_key@, context.now) {
                Err(e) => Err(e),
                Ok(caller) => upload_audio_outcome(state.store@, caller, field_of(field), context@),
            },
        ),
        commits(state.store@, r),
{
    let caller = authenticate(authorization, state.secret_key.as_str(), context.now)?;
    upload_audio_as(caller.as_str(), field, &state.store, context)
}

/// Finds the stream of an audio file on behalf of `caller`.
pub fn stream_audio_as(caller: &str, audio_id: &str, store: &Store) -> (r: Result<
    AudioStream,
    AppError,
>)
    ensures
        answers(r, stream_audio_outcome(store@, caller@, audio_id@)),
{
    let is_admin = check_admin(caller, store)?;
    let audio = match lookup(store.audio_files(), &AudioColumn::Id, audio_id) {
        Some(audio) => audio,
        None => {
            return Err(AppError::new(ErrorKind::NotFound, "Audio not found"));
        },
    };
    authorize(Action::ReadAudio, caller, is_admin, audio.user_id.as_str())?;
    Ok(
        AudioStream {
            path: blob_location(
                audio.user_folder.as_str(),
                audio.id.as_str(),
                audio.filename.as_str(),
            ),
            content_type: served_media_type(audio.mime_type.as_str()),
        },
    )
}

/// Hands out where an audio file is read from. Its owner and administrators
/// may.
pub fn stream_audio(
    path: &str,
    state: &AppState,
    authorization: Option<&str>,
    context: &RequestContext,
) -> (r: Result<AudioStream, AppError>)
    ensures
        answers(
            r,
            match identity_at(text_of(authorization), state.secret_key@, context.now) {
                Err(e) => Err(e),
                Ok(caller) => stream_audio_outcome(state.store@, caller, path@),
            },
        ),
{
    let caller = authenticate(authorization, state.secret_key.as_str(), context.now)?;
    stream_audio_as(caller.as_str(), path, &state.store)
}

/// Plans the removal of an audio file on behalf of `caller`.
pub fn delete_audio_as(caller: &str, audio_id: &str, store: &Store) -> (r: Result<
    Change<()>,
    AppError,
>)
    ensures
        answers(r, delete_audio_outcome(store@, caller@, audio_id@)),
        commits(store@, r),
{
    let is_admin = check_admin(caller, store)?;
    let audio = match lookup(store.audio_files(), &AudioColumn::Id, audio_id) {
        Some(audio) => audio,
        None => {
            return Err(AppError::new(ErrorKind::NotFound, "Audio not found"));
        },
    };
    authorize(Action::DeleteAudio, caller, is_admin, audio.user_id.as_str())?;
    let unit = plan_audio_deletion(audio_id);
    let path = blob_location(audio.user_folder.as_str(), audio.id.as_str(), audio.filename.as_str());
    let mut blobs: Vec<BlobStep> = Vec::new();
    blobs.push(BlobStep::Remove(path));
    store.recall_constraints();
    proof {
        assert(views(blobs@) =~= seq![BlobStepView::Remove(path@)]);
        audio_deletion_leaves_nothing_behind(store@, audio_id@);
    }
    Ok(Change { reply: (), unit, blobs })
}

/// Removes an audio file and the playlist entries that refer to it; the
/// blob is removed once the rows are gone. Its owner and administrators may.
pub fn delete_audio(
    path: &str,
    state: &AppState,
    authorization: Option<&str>,
    context: &RequestContext,
) -> (r: Result<Change<()>, AppError>)
    ensures
        answers(
            r,
            match identity_at(text_of(authorization), state.secret_key@, context.now) {
                Err(e) => Err(e),
                Ok(caller) => delete_audio_outcome(state.store@, caller, path@),
            },
        ),
        commits(state.store@, r),
{
    let caller = authenticate(authorization, state.secret_key.as_str(), context.now)?;
    delete_audio_as(caller.as_str(), path, &state.store)
}

/// Lists the audio files of an account on behalf of `caller`.
pub fn get_user_audio_as(caller: &str, target: &str, store: &Store) -> (r: Result<
    Vec<AudioFile>,
    AppError,
>)
    ensures
        lists(r, get_user_audio_outcome(store@, caller@, target@)),
{
    if !caller.eq(target) {
        let is_admin = check_admin(caller, store)?;
        authorize(Action::ListUserAudio, caller, is_admin, target)?;
    }
    Ok(arrange(matching(store.audio_files(), &AudioColumn::UserId, target)))
}

/// Lists the audio files of an account, newest first. The account itself
/// and administrators may.
pub fn get_user_audio(
    path: &str,
    state: &AppState,
    authorization: Option<&str>,
    context: &RequestContext,
) -> (r: Result<Vec<AudioFile>, AppError>)
    ensures
        lists(
            r,
            match identity_at(text_of(authorization), state.secret_key@, context.now) {
                Err(e) => Err(e),
                Ok(caller) => get_user_audio_outcome(state.store@, caller, path@),
            },
        ),
{
    let caller = authenticate(authorization, state.secret_key.as_str(), context.now)?;
    get_user_audio_as(caller.as_str(), path, &state.store)
}

/// An upload whose declared media type is missing, does not parse or is not
/// among the accepted ones is refused as invalid, whoever uploads and
/// whatever the library holds: no row is planned and no blob step handed
/// out.
pub proof fn upload_of_unlisted_type_is_refused(
    v: Library,
    caller: Seq<char>,
    field: UploadFieldView,
    context: RequestContextView,
)
    requires
        acceptance(field.content_type) is Err,
    ensures
        upload_audio_outcome(v, caller, Some(field), context) matches Err(e) && e.kind
            == ErrorKind::Validation,
{
}

} // verus!
