//! Embedded catalog sources, one JSON document per locale.
//!
//! Each document holds `palette_labels`, the palette color labels in palette
//! field order, and `strings`, the translations keyed by [`crate::Key::name`].

use vstd::prelude::*;
use crate::locale::Locale;

verus! {

/// Catalog source of the `en` locale.
pub const EN_CATALOG: &'static str = r#"{
  "palette_labels": [
    "Foreground",
    "Background",
    "Cursor",
    "Dim foreground",
    "Bright foreground",
    "Black",
    "Red",
    "Green",
    "Yellow",
    "Blue",
    "Magenta",
    "Cyan",
    "White",
    "Bright black",
    "Bright red",
    "Bright green",
    "Bright yellow",
    "Bright blue",
    "Bright magenta",
    "Bright cyan",
    "Bright white",
    "Dim black",
    "Dim red",
    "Dim green",
    "Dim yellow",
    "Dim blue",
    "Dim magenta",
    "Dim cyan",
    "Dim white"
  ],
  "strings": {
    "button_save": "Save",
    "section_appearance": "Appearance",
    "err_io_prefix": "I/O error: ",
    "err_json_prefix": "Invalid data: ",
    "err_title_empty": "Title cannot be empty.",
    "err_title_duplicate": "A quick launch with this title already exists.",
    "err_title_required": "Title is required.",
    "err_program_required": "Program is required.",
    "err_host_required": "Host is required.",
    "err_ssh_port_positive": "SSH port must be greater than 0.",
    "err_invalid_port": "Port must be a number between 1 and 65535.",
    "err_missing_custom_draft": "Custom command draft is missing.",
    "err_missing_ssh_draft": "SSH draft is missing.",
    "err_missing_target_folder": "Target folder not found.",
    "tpl_edit_tab_title": "Edit: {title}",
    "tpl_launch_failed_title": "Failed to launch \"{title}\"",
    "tpl_launch_failed_body": "Command: {command}\nError: {error}",
    "tpl_terminal_init_failed": "Terminal tab initialization failed: {error}",
    "tpl_palette_fallback_label": "Color {index}",
    "tpl_ssh_connection_failed": "SSH connection failed: {error}",
    "tpl_working_directory_not_found": "Working directory not found: {path}",
    "tpl_working_directory_not_directory": "Working directory is not a directory: {path}",
    "tpl_identity_file_not_found": "Identity file not found: {path}",
    "tpl_identity_file_not_file": "Identity file is not a file: {path}",
    "tpl_program_not_found_in_path": "Program not found in PATH: {program}",
    "tpl_program_not_found": "Program not found: {program}",
    "tpl_program_is_directory": "Program is a directory: {program}",
    "tpl_program_not_executable": "Program is not executable: {program}"
  }
}"#;

/// Catalog source of the `zh-CN` locale.
pub const ZH_CN_CATALOG: &'static str = r#"{
  "palette_labels": [
    "前景色",
    "背景色",
    "光标",
    "暗前景色",
    "亮前景色",
    "黑色",
    "红色",
    "绿色",
    "黄色",
    "蓝色",
    "品红",
    "青色",
    "白色",
    "亮黑色",
    "亮红色",
    "亮绿色",
    "亮黄色",
    "亮蓝色",
    "亮品红",
    "亮青色",
    "亮白色",
    "暗黑色",
    "暗红色",
    "暗绿色",
    "暗黄色",
    "暗蓝色",
    "暗品红",
    "暗青色",
    "暗白色"
  ],
  "strings": {
    "button_save": "保存",
    "section_appearance": "外观",
    "err_io_prefix": "I/O 错误：",
    "err_json_prefix": "数据无效：",
    "err_title_empty": "标题不能为空。",
    "err_title_duplicate": "已存在同名的快速启动。",
    "err_title_required": "标题为必填项。",
    "err_program_required": "程序为必填项。",
    "err_host_required": "主机为必填项。",
    "err_ssh_port_positive": "SSH 端口必须大于 0。",
    "err_invalid_port": "端口必须是 1 到 65535 之间的数字。",
    "err_missing_custom_draft": "缺少自定义命令草稿。",
    "err_missing_ssh_draft": "缺少 SSH 草稿。",
    "err_missing_target_folder": "找不到目标文件夹。",
    "tpl_edit_tab_title": "编辑：{title}",
    "tpl_launch_failed_title": "启动“{title}”失败",
    "tpl_launch_failed_body": "命令：{command}\n错误：{error}",
    "tpl_terminal_init_failed": "终端标签页初始化失败：{error}",
    "tpl_palette_fallback_label": "颜色 {index}",
    "tpl_ssh_connection_failed": "SSH 连接失败：{error}",
    "tpl_working_directory_not_found": "找不到工作目录：{path}",
    "tpl_working_directory_not_directory": "工作目录不是文件夹：{path}",
    "tpl_identity_file_not_found": "找不到身份文件：{path}",
    "tpl_identity_file_not_file": "身份文件路径不是文件：{path}",
    "tpl_program_not_found_in_path": "在 PATH 中找不到程序：{program}",
    "tpl_program_not_found": "找不到程序：{program}",
    "tpl_program_is_directory": "程序是一个目录：{program}",
    "tpl_program_not_executable": "程序不可执行：{program}"
  }
}"#;

/// Catalog source of the `zh-TW` locale.
pub const ZH_TW_CATALOG: &'static str = r#"{
  "palette_labels": [
    "前景色",
    "背景色",
    "游標",
    "暗前景色",
    "亮前景色",
    "黑色",
    "紅色",
    "綠色",
    "黃色",
    "藍色",
    "洋紅",
    "青色",
    "白色",
    "亮黑色",
    "亮紅色",
    "亮綠色",
    "亮黃色",
    "亮藍色",
    "亮洋紅",
    "亮青色",
    "亮白色",
    "暗黑色",
    "暗紅色",
    "暗綠色",
    "暗黃色",
    "暗藍色",
    "暗洋紅",
    "暗青色",
    "暗白色"
  ],
  "strings": {
    "button_save": "儲存",
    "section_appearance": "外觀",
    "err_io_prefix": "I/O 錯誤：",
    "err_json_prefix": "資料無效：",
    "err_title_empty": "標題不可為空。",
    "err_title_duplicate": "已存在同名的快速啟動。",
    "err_title_required": "標題為必填。",
    "err_program_required": "程式為必填。",
    "err_host_required": "主機為必填。",
    "err_ssh_port_positive": "SSH 連接埠必須大於 0。",
    "err_invalid_port": "連接埠必須是 1 到 65535 之間的數字。",
    "err_missing_custom_draft": "缺少自訂指令草稿。",
    "err_missing_ssh_draft": "缺少 SSH 草稿。",
    "err_missing_target_folder": "找不到目標資料夾。",
    "tpl_edit_tab_title": "編輯：{title}",
    "tpl_launch_failed_title": "啟動「{title}」失敗",
    "tpl_launch_failed_body": "指令：{command}\n錯誤：{error}",
    "tpl_terminal_init_failed": "終端機分頁初始化失敗：{error}",
    "tpl_palette_fallback_label": "顏色 {index}",
    "tpl_ssh_connection_failed": "SSH 連線失敗：{error}",
    "tpl_working_directory_not_found": "找不到工作目錄：{path}",
    "tpl_working_directory_not_directory": "工作目錄不是資料夾：{path}",
    "tpl_identity_file_not_found": "找不到身分檔案：{path}",
    "tpl_identity_file_not_file": "身分檔案路徑不是檔案：{path}",
    "tpl_program_not_found_in_path": "在 PATH 中找不到程式：{program}",
    "tpl_program_not_found": "找不到程式：{program}",
    "tpl_program_is_directory": "程式是一個目錄：{program}",
    "tpl_program_not_executable": "程式無法執行：{program}"
  }
}"#;

/// Catalog source of the `ja` locale.
pub const JA_CATALOG: &'static str = r#"{
  "palette_labels": [
    "前景色",
    "背景色",
    "カーソル",
    "暗い前景色",
    "明るい前景色",
    "黒",
    "赤",
    "緑",
    "黄",
    "青",
    "マゼンタ",
    "シアン",
    "白",
    "明るい黒",
    "明るい赤",
    "明るい緑",
    "明るい黄",
    "明るい青",
    "明るいマゼンタ",
    "明るいシアン",
    "明るい白",
    "暗い黒",
    "暗い赤",
    "暗い緑",
    "暗い黄",
    "暗い青",
    "暗いマゼンタ",
    "暗いシアン",
    "暗い白"
  ],
  "strings": {
    "button_save": "保存",
    "section_appearance": "外観",
    "err_io_prefix": "I/O エラー：",
    "err_json_prefix": "無効なデータ：",
    "err_title_empty": "タイトルを空にすることはできません。",
    "err_title_duplicate": "同じタイトルのクイック起動が既に存在します。",
    "err_title_required": "タイトルは必須です。",
    "err_program_required": "プログラムは必須です。",
    "err_host_required": "ホストは必須です。",
    "err_ssh_port_positive": "SSH ポートは 0 より大きくなければなりません。",
    "err_invalid_port": "ポートは 1 から 65535 までの数値である必要があります。",
    "err_missing_custom_draft": "カスタムコマンドの下書きがありません。",
    "err_missing_ssh_draft": "SSH の下書きがありません。",
    "err_missing_target_folder": "対象のフォルダーが見つかりません。",
    "tpl_edit_tab_title": "編集：{title}",
    "tpl_launch_failed_title": "「{title}」を起動できませんでした",
    "tpl_launch_failed_body": "コマンド：{command}\nエラー：{error}",
    "tpl_terminal_init_failed": "ターミナルタブの初期化に失敗しました：{error}",
    "tpl_palette_fallback_label": "色 {index}",
    "tpl_ssh_connection_failed": "SSH 接続に失敗しました：{error}",
    "tpl_working_directory_not_found": "作業ディレクトリが見つかりません：{path}",
    "tpl_working_directory_not_directory": "作業ディレクトリがディレクトリではありません：{path}",
    "tpl_identity_file_not_found": "ID ファイルが見つかりません：{path}",
    "tpl_identity_file_not_file": "ID ファイルがファイルではありません：{path}",
    "tpl_program_not_found_in_path": "PATH にプログラムが見つかりません：{program}",
    "tpl_program_not_found": "プログラムが見つかりません：{program}",
    "tpl_program_is_directory": "プログラムはディレクトリです：{program}",
    "tpl_program_not_executable": "プログラムを実行できません：{program}"
  }
}"#;

/// Catalog source of the `ko` locale.
pub const KO_CATALOG: &'static str = r#"{
  "palette_labels": [
    "전경색",
    "배경색",
    "커서",
    "어두운 전경색",
    "밝은 전경색",
    "검정",
    "빨강",
    "초록",
    "노랑",
    "파랑",
    "자홍",
    "청록",
    "흰색",
    "밝은 검정",
    "밝은 빨강",
    "밝은 초록",
    "밝은 노랑",
    "밝은 파랑",
    "밝은 자홍",
    "밝은 청록",
    "밝은 흰색",
    "어두운 검정",
    "어두운 빨강",
    "어두운 초록",
    "어두운 노랑",
    "어두운 파랑",
    "어두운 자홍",
    "어두운 청록",
    "어두운 흰색"
  ],
  "strings": {
    "button_save": "저장",
    "section_appearance": "모양",
    "err_io_prefix": "I/O 오류: ",
    "err_json_prefix": "잘못된 데이터: ",
    "err_title_empty": "제목은 비워 둘 수 없습니다.",
    "err_title_duplicate": "같은 제목의 빠른 실행이 이미 있습니다.",
    "err_title_required": "제목은 필수입니다.",
    "err_program_required": "프로그램은 필수입니다.",
    "err_host_required": "호스트는 필수입니다.",
    "err_ssh_port_positive": "SSH 포트는 0보다 커야 합니다.",
    "err_invalid_port": "포트는 1에서 65535 사이의 숫자여야 합니다.",
    "err_missing_custom_draft": "사용자 지정 명령 초안이 없습니다.",
    "err_missing_ssh_draft": "SSH 초안이 없습니다.",
    "err_missing_target_folder": "대상 폴더를 찾을 수 없습니다.",
    "tpl_edit_tab_title": "편집: {title}",
    "tpl_launch_failed_title": "\"{title}\" 실행 실패",
    "tpl_launch_failed_body": "명령: {command}\n오류: {error}",
    "tpl_terminal_init_failed": "터미널 탭 초기화 실패: {error}",
    "tpl_palette_fallback_label": "색상 {index}",
    "tpl_ssh_connection_failed": "SSH 연결 실패: {error}",
    "tpl_working_directory_not_found": "작업 디렉터리를 찾을 수 없습니다: {path}",
    "tpl_working_directory_not_directory": "작업 경로가 디렉터리가 아닙니다: {path}",
    "tpl_identity_file_not_found": "ID 파일을 찾을 수 없습니다: {path}",
    "tpl_identity_file_not_file": "ID 경로가 파일이 아닙니다: {path}",
    "tpl_program_not_found_in_path": "PATH에서 프로그램을 찾을 수 없습니다: {program}",
    "tpl_program_not_found": "프로그램을 찾을 수 없습니다: {program}",
    "tpl_program_is_directory": "프로그램이 디렉터리입니다: {program}",
    "tpl_program_not_executable": "프로그램을 실행할 수 없습니다: {program}"
  }
}"#;

/// Catalog source of the `fr` locale.
pub const FR_CATALOG: &'static str = r#"{
  "palette_labels": [
    "Premier plan",
    "Arrière-plan",
    "Curseur",
    "Premier plan atténué",
    "Premier plan vif",
    "Noir",
    "Rouge",
    "Vert",
    "Jaune",
    "Bleu",
    "Magenta",
    "Cyan",
    "Blanc",
    "Noir vif",
    "Rouge vif",
    "Vert vif",
    "Jaune vif",
    "Bleu vif",
    "Magenta vif",
    "Cyan vif",
    "Blanc vif",
    "Noir atténué",
    "Rouge atténué",
    "Vert atténué",
    "Jaune atténué",
    "Bleu atténué",
    "Magenta atténué",
    "Cyan atténué",
    "Blanc atténué"
  ],
  "strings": {
    "button_save": "Enregistrer",
    "section_appearance": "Apparence",
    "err_io_prefix": "Erreur d’E/S : ",
    "err_json_prefix": "Données invalides : ",
    "err_title_empty": "Le titre ne peut pas être vide.",
    "err_title_duplicate": "Un lancement rapide portant ce titre existe déjà.",
    "err_title_required": "Le titre est obligatoire.",
    "err_program_required": "Le programme est obligatoire.",
    "err_host_required": "L’hôte est obligatoire.",
    "err_ssh_port_positive": "Le port SSH doit être supérieur à 0.",
    "err_invalid_port": "Le port doit être un nombre compris entre 1 et 65535.",
    "err_missing_custom_draft": "Le brouillon de commande personnalisée est manquant.",
    "err_missing_ssh_draft": "Le brouillon SSH est manquant.",
    "err_missing_target_folder": "Dossier cible introuvable.",
    "tpl_edit_tab_title": "Modifier : {title}",
    "tpl_launch_failed_title": "Échec du lancement de « {title} »",
    "tpl_launch_failed_body": "Commande : {command}\nErreur : {error}",
    "tpl_terminal_init_failed": "Échec de l’initialisation de l’onglet de terminal : {error}",
    "tpl_palette_fallback_label": "Couleur {index}",
    "tpl_ssh_connection_failed": "Échec de la connexion SSH : {error}",
    "tpl_working_directory_not_found": "Répertoire de travail introuvable : {path}",
    "tpl_working_directory_not_directory": "Le répertoire de travail n’est pas un dossier : {path}",
    "tpl_identity_file_not_found": "Fichier d’identité introuvable : {path}",
    "tpl_identity_file_not_file": "Le chemin d’identité n’est pas un fichier : {path}",
    "tpl_program_not_found_in_path": "Programme introuvable dans PATH : {program}",
    "tpl_program_not_found": "Programme introuvable : {program}",
    "tpl_program_is_directory": "Le programme est un dossier : {program}",
    "tpl_program_not_executable": "Le programme n’est pas exécutable : {program}"
  }
}"#;

/// Catalog source of the `de` locale.
pub const DE_CATALOG: &'static str = r#"{
  "palette_labels": [
    "Vordergrund",
    "Hintergrund",
    "Cursor",
    "Gedimmter Vordergrund",
    "Heller Vordergrund",
    "Schwarz",
    "Rot",
    "Grün",
    "Gelb",
    "Blau",
    "Magenta",
    "Cyan",
    "Weiß",
    "Schwarz (hell)",
    "Rot (hell)",
    "Grün (hell)",
    "Gelb (hell)",
    "Blau (hell)",
    "Magenta (hell)",
    "Cyan (hell)",
    "Weiß (hell)",
    "Schwarz (gedimmt)",
    "Rot (gedimmt)",
    "Grün (gedimmt)",
    "Gelb (gedimmt)",
    "Blau (gedimmt)",
    "Magenta (gedimmt)",
    "Cyan (gedimmt)",
    "Weiß (gedimmt)"
  ],
  "strings": {
    "button_save": "Speichern",
    "section_appearance": "Darstellung",
    "err_io_prefix": "E/A-Fehler: ",
    "err_json_prefix": "Ungültige Daten: ",
    "err_title_empty": "Der Titel darf nicht leer sein.",
    "err_title_duplicate": "Ein Schnellstart mit diesem Titel existiert bereits.",
    "err_title_required": "Titel ist erforderlich.",
    "err_program_required": "Programm ist erforderlich.",
    "err_host_required": "Host ist erforderlich.",
    "err_ssh_port_positive": "Der SSH-Port muss größer als 0 sein.",
    "err_invalid_port": "Der Port muss eine Zahl zwischen 1 und 65535 sein.",
    "err_missing_custom_draft": "Entwurf für benutzerdefinierten Befehl fehlt.",
    "err_missing_ssh_draft": "SSH-Entwurf fehlt.",
    "err_missing_target_folder": "Zielordner nicht gefunden.",
    "tpl_edit_tab_title": "Bearbeiten: {title}",
    "tpl_launch_failed_title": "„{title}“ konnte nicht gestartet werden",
    "tpl_launch_failed_body": "Befehl: {command}\nFehler: {error}",
    "tpl_terminal_init_failed": "Initialisierung des Terminal-Tabs fehlgeschlagen: {error}",
    "tpl_palette_fallback_label": "Farbe {index}",
    "tpl_ssh_connection_failed": "SSH-Verbindung fehlgeschlagen: {error}",
    "tpl_working_directory_not_found": "Arbeitsverzeichnis nicht gefunden: {path}",
    "tpl_working_directory_not_directory": "Arbeitsverzeichnis ist kein Verzeichnis: {path}",
    "tpl_identity_file_not_found": "Identitätsdatei nicht gefunden: {path}",
    "tpl_identity_file_not_file": "Identitätspfad ist keine Datei: {path}",
    "tpl_program_not_found_in_path": "Programm nicht im PATH gefunden: {program}",
    "tpl_program_not_found": "Programm nicht gefunden: {program}",
    "tpl_program_is_directory": "Programm ist ein Verzeichnis: {program}",
    "tpl_program_not_executable": "Programm ist nicht ausführbar: {program}"
  }
}"#;

/// Catalog source of the `es` locale.
pub const ES_CATALOG: &'static str = r#"{
  "palette_labels": [
    "Primer plano",
    "Fondo",
    "Cursor",
    "Primer plano atenuado",
    "Primer plano brillante",
    "Negro",
    "Rojo",
    "Verde",
    "Amarillo",
    "Azul",
    "Magenta",
    "Cian",
    "Blanco",
    "Negro brillante",
    "Rojo brillante",
    "Verde brillante",
    "Amarillo brillante",
    "Azul brillante",
    "Magenta brillante",
    "Cian brillante",
    "Blanco brillante",
    "Negro atenuado",
    "Rojo atenuado",
    "Verde atenuado",
    "Amarillo atenuado",
    "Azul atenuado",
    "Magenta atenuado",
    "Cian atenuado",
    "Blanco atenuado"
  ],
  "strings": {
    "button_save": "Guardar",
    "section_appearance": "Apariencia",
    "err_io_prefix": "Error de E/S: ",
    "err_json_prefix": "Datos no válidos: ",
    "err_title_empty": "El título no puede estar vacío.",
    "err_title_duplicate": "Ya existe un inicio rápido con este título.",
    "err_title_required": "El título es obligatorio.",
    "err_program_required": "El programa es obligatorio.",
    "err_host_required": "El host es obligatorio.",
    "err_ssh_port_positive": "El puerto SSH debe ser mayor que 0.",
    "err_invalid_port": "El puerto debe ser un número entre 1 y 65535.",
    "err_missing_custom_draft": "Falta el borrador del comando personalizado.",
    "err_missing_ssh_draft": "Falta el borrador SSH.",
    "err_missing_target_folder": "No se encontró la carpeta de destino.",
    "tpl_edit_tab_title": "Editar: {title}",
    "tpl_launch_failed_title": "No se pudo iniciar «{title}»",
    "tpl_launch_failed_body": "Comando: {command}\nError: {error}",
    "tpl_terminal_init_failed": "Error al inicializar la pestaña de terminal: {error}",
    "tpl_palette_fallback_label": "Color {index}",
    "tpl_ssh_connection_failed": "Error de conexión SSH: {error}",
    "tpl_working_directory_not_found": "No se encontró el directorio de trabajo: {path}",
    "tpl_working_directory_not_directory": "El directorio de trabajo no es una carpeta: {path}",
    "tpl_identity_file_not_found": "No se encontró el archivo de identidad: {path}",
    "tpl_identity_file_not_file": "La ruta de identidad no es un archivo: {path}",
    "tpl_program_not_found_in_path": "No se encontró el programa en PATH: {program}",
    "tpl_program_not_found": "No se encontró el programa: {program}",
    "tpl_program_is_directory": "El programa es un directorio: {program}",
    "tpl_program_not_executable": "El programa no es ejecutable: {program}"
  }
}"#;

/// Catalog source of the `pt-BR` locale.
pub const PT_BR_CATALOG: &'static str = r#"{
  "palette_labels": [
    "Primeiro plano",
    "Fundo",
    "Cursor",
    "Primeiro plano esmaecido",
    "Primeiro plano brilhante",
    "Preto",
    "Vermelho",
    "Verde",
    "Amarelo",
    "Azul",
    "Magenta",
    "Ciano",
    "Branco",
    "Preto brilhante",
    "Vermelho brilhante",
    "Verde brilhante",
    "Amarelo brilhante",
    "Azul brilhante",
    "Magenta brilhante",
    "Ciano brilhante",
    "Branco brilhante",
    "Preto esmaecido",
    "Vermelho esmaecido",
    "Verde esmaecido",
    "Amarelo esmaecido",
    "Azul esmaecido",
    "Magenta esmaecido",
    "Ciano esmaecido",
    "Branco esmaecido"
  ],
  "strings": {
    "button_save": "Salvar",
    "section_appearance": "Aparência",
    "err_io_prefix": "Erro de E/S: ",
    "err_json_prefix": "Dados inválidos: ",
    "err_title_empty": "O título não pode ficar vazio.",
    "err_title_duplicate": "Já existe uma inicialização rápida com este título.",
    "err_title_required": "O título é obrigatório.",
    "err_program_required": "O programa é obrigatório.",
    "err_host_required": "O host é obrigatório.",
    "err_ssh_port_positive": "A porta SSH deve ser maior que 0.",
    "err_invalid_port": "A porta deve ser um número entre 1 e 65535.",
    "err_missing_custom_draft": "O rascunho do comando personalizado está ausente.",
    "err_missing_ssh_draft": "O rascunho SSH está ausente.",
    "err_missing_target_folder": "Pasta de destino não encontrada.",
    "tpl_edit_tab_title": "Editar: {title}",
    "tpl_launch_failed_title": "Falha ao iniciar \"{title}\"",
    "tpl_launch_failed_body": "Comando: {command}\nErro: {error}",
    "tpl_terminal_init_failed": "Falha ao inicializar a aba do terminal: {error}",
    "tpl_palette_fallback_label": "Cor {index}",
    "tpl_ssh_connection_failed": "Falha na conexão SSH: {error}",
    "tpl_working_directory_not_found": "Diretório de trabalho não encontrado: {path}",
    "tpl_working_directory_not_directory": "O diretório de trabalho não é uma pasta: {path}",
    "tpl_identity_file_not_found": "Arquivo de identidade não encontrado: {path}",
    "tpl_identity_file_not_file": "O caminho de identidade não é um arquivo: {path}",
    "tpl_program_not_found_in_path": "Programa não encontrado no PATH: {program}",
    "tpl_program_not_found": "Programa não encontrado: {program}",
    "tpl_program_is_directory": "O programa é um diretório: {program}",
    "tpl_program_not_executable": "O programa não é executável: {program}"
  }
}"#;

/// Catalog source of the `ru` locale.
pub const RU_CATALOG: &'static str = r#"{
  "palette_labels": [
    "Передний план",
    "Фон",
    "Курсор",
    "Тусклый передний план",
    "Яркий передний план",
    "Чёрный",
    "Красный",
    "Зелёный",
    "Жёлтый",
    "Синий",
    "Пурпурный",
    "Голубой",
    "Белый",
    "Чёрный (яркий)",
    "Красный (яркий)",
    "Зелёный (яркий)",
    "Жёлтый (яркий)",
    "Синий (яркий)",
    "Пурпурный (яркий)",
    "Голубой (яркий)",
    "Белый (яркий)",
    "Чёрный (тусклый)",
    "Красный (тусклый)",
    "Зелёный (тусклый)",
    "Жёлтый (тусклый)",
    "Синий (тусклый)",
    "Пурпурный (тусклый)",
    "Голубой (тусклый)",
    "Белый (тусклый)"
  ],
  "strings": {
    "button_save": "Сохранить",
    "section_appearance": "Оформление",
    "err_io_prefix": "Ошибка ввода-вывода: ",
    "err_json_prefix": "Некорректные данные: ",
    "err_title_empty": "Название не может быть пустым.",
    "err_title_duplicate": "Быстрый запуск с таким названием уже существует.",
    "err_title_required": "Укажите название.",
    "err_program_required": "Укажите программу.",
    "err_host_required": "Укажите хост.",
    "err_ssh_port_positive": "Порт SSH должен быть больше 0.",
    "err_invalid_port": "Порт должен быть числом от 1 до 65535.",
    "err_missing_custom_draft": "Отсутствует черновик пользовательской команды.",
    "err_missing_ssh_draft": "Отсутствует черновик SSH.",
    "err_missing_target_folder": "Целевая папка не найдена.",
    "tpl_edit_tab_title": "Правка: {title}",
    "tpl_launch_failed_title": "Не удалось запустить «{title}»",
    "tpl_launch_failed_body": "Команда: {command}\nОшибка: {error}",
    "tpl_terminal_init_failed": "Не удалось инициализировать вкладку терминала: {error}",
    "tpl_palette_fallback_label": "Цвет {index}",
    "tpl_ssh_connection_failed": "Не удалось установить SSH-соединение: {error}",
    "tpl_working_directory_not_found": "Рабочий каталог не найден: {path}",
    "tpl_working_directory_not_directory": "Рабочий путь не является каталогом: {path}",
    "tpl_identity_file_not_found": "Файл ключа не найден: {path}",
    "tpl_identity_file_not_file": "Путь к ключу не является файлом: {path}",
    "tpl_program_not_found_in_path": "Программа не найдена в PATH: {program}",
    "tpl_program_not_found": "Программа не найдена: {program}",
    "tpl_program_is_directory": "Программа является каталогом: {program}",
    "tpl_program_not_executable": "Программа не является исполняемой: {program}"
  }
}"#;

impl Locale {
    /// Embedded catalog source for this locale.
    pub fn json(self) -> (r: &'static str)
        ensures
            r == match self {
                Locale::En => EN_CATALOG,
                Locale::ZhCn => ZH_CN_CATALOG,
                Locale::ZhTw => ZH_TW_CATALOG,
                Locale::Ja => JA_CATALOG,
                Locale::Ko => KO_CATALOG,
                Locale::Fr => FR_CATALOG,
                Locale::De => DE_CATALOG,
                Locale::Es => ES_CATALOG,
                Locale::PtBr => PT_BR_CATALOG,
                Locale::Ru => RU_CATALOG,
            },
    {
        match self {
            Locale::ZhCn => ZH_CN_CATALOG,
            Locale::ZhTw => ZH_TW_CATALOG,
            Locale::Ja => JA_CATALOG,
            Locale::Ko => KO_CATALOG,
            Locale::Fr => FR_CATALOG,
            Locale::De => DE_CATALOG,
            Locale::Es => ES_CATALOG,
            Locale::PtBr => PT_BR_CATALOG,
            Locale::Ru => RU_CATALOG,
            _ => EN_CATALOG,
        }
    }
}

} // verus!
