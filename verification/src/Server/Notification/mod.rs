//! One handler per notification that a side-car sends to the editor host.
//!
//! Every handler reads the notification's JSON parameter and answers with the
//! list of effects the embedder performs, in order.

pub mod Support;
pub mod ApplyTextEdits;
pub mod DebugLifecycle;
pub mod DisposeStatusBarItem;
pub mod ExtensionActivated;
pub mod ExtensionDeactivated;
pub mod ExtensionHostMessage;
pub mod LanguagesSetDocumentLanguage;
pub mod OpenExternal;
pub mod OutputAppend;
pub mod OutputAppendLine;
pub mod OutputChannelAppend;
pub mod OutputChannelClear;
pub mod OutputChannelCreate;
pub mod OutputChannelDispose;
pub mod OutputChannelHide;
pub mod OutputChannelReplace;
pub mod OutputChannelShow;
pub mod OutputClear;
pub mod OutputCreate;
pub mod OutputDispose;
pub mod OutputReplace;
pub mod OutputShow;
pub mod ProgressComplete;
pub mod ProgressEnd;
pub mod ProgressReport;
pub mod ProgressStart;
pub mod ProgressUpdate;
pub mod RegisterCommand;
pub mod RegisterLanguageProvider;
pub mod RegisterScmProvider;
pub mod RegisterScmResourceGroup;
pub mod SecurityIncident;
pub mod SetLanguageConfiguration;
pub mod SetStatusBarText;
pub mod SetTextEditorDecorations;
pub mod StatusBarLifecycle;
pub mod StatusBarMessage;
pub mod TerminalLifecycle;
pub mod TreeRefresh;
pub mod UnregisterCommand;
pub mod UnregisterDebugAdapter;
pub mod UnregisterDebugConfigurationProvider;
