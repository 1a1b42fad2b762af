use vstd::prelude::*;

use crate::ids::Uuid;
use crate::records;
use crate::text::Text;

verus! {

/// The genres a new database starts with.
#[derive(Clone, Copy, Debug, PartialEq, Eq, Structural)]
pub enum Genre {
    Fantasy,
    ScienceFiction,
    Dystopian,
    ActionAndAdventure,
    Mystery,
    Horror,
    Thriller,
    HistoricalFiction,
    Romance,
    GraphicNovel,
    ShortStory,
    YoungAdult,
    Children,
    Autobiography,
    Biography,
    FoodAndDrink,
    ArtAndPhotography,
    SelfHelp,
    History,
    Travel,
    TrueCrime,
    Humor,
    Essays,
    ReligionAndSpirituality,
}

/// The name under which a genre is stored.
pub open spec fn genre_label(x: Genre) -> Seq<char> {
    match x {
        Genre::Fantasy => "Fantasy"@,
        Genre::ScienceFiction => "Science Fiction"@,
        Genre::Dystopian => "Dystopian"@,
        Genre::ActionAndAdventure => "Action & Adventure"@,
        Genre::Mystery => "Mystery"@,
        Genre::Horror => "Horror"@,
        Genre::Thriller => "Thriller"@,
        Genre::HistoricalFiction => "Historical Fiction"@,
        Genre::Romance => "Romance"@,
        Genre::GraphicNovel => "Graphic Novel"@,
        Genre::ShortStory => "Short Story"@,
        Genre::YoungAdult => "Young Adult"@,
        Genre::Children => "Children"@,
        Genre::Autobiography => "Autobiography"@,
        Genre::Biography => "Biography"@,
        Genre::FoodAndDrink => "Food & Drink"@,
        Genre::ArtAndPhotography => "Art & Photography"@,
        Genre::SelfHelp => "Self-help"@,
        Genre::History => "History"@,
        Genre::Travel => "Travel"@,
        Genre::TrueCrime => "True Crime"@,
        Genre::Humor => "Humor"@,
        Genre::Essays => "Essays"@,
        Genre::ReligionAndSpirituality => "Religion & Spirituality"@,
    }
}

/// The fixed identifier under which a genre is stored.
pub open spec fn genre_id(x: Genre) -> u128 {
    match x {
        Genre::Fantasy => 0x26f223a0_879b_4581_9f43_393ff0bf1dbbu128,
        Genre::ScienceFiction => 0x25a88e29_86e5_4cf6_a035_5c0d932e49e1u128,
        Genre::Dystopian => 0xc693ed78_35c1_4488_956a_63d4f8b028d3u128,
        Genre::ActionAndAdventure => 0xd637b371_6c57_4ddf_83c2_22580b81d646u128,
        Genre::Mystery => 0x2b8276ab_8a04_478f_b19b_1abab68ed9a7u128,
        Genre::Horror => 0x151bc0c4_e2b3_4090_bf91_43ce62dd5d26u128,
        Genre::Thriller => 0x7e6f2351_83c1_4a2c_9e4d_793d46301ad2u128,
        Genre::HistoricalFiction => 0xc12196b9_a845_4c79_a54c_9f9d42ae83dbu128,
        Genre::Romance => 0xe777568b_e417_4217_9315_4ef28b63807fu128,
        Genre::GraphicNovel => 0x50e0cb16_5c2f_4cac_a1fc_6f22f2307859u128,
        Genre::ShortStory => 0x4186b4d5_80c7_4d7a_a8d4_595cc6be0d66u128,
        Genre::YoungAdult => 0xab72338e_0934_4cbf_8f20_66ebcd5e01ceu128,
        Genre::Children => 0x197c53e7_b5f3_42d5_8241_1941a2c94402u128,
        Genre::Autobiography => 0x3346d4ee_51ac_4e98_ad81_c3703644041eu128,
        Genre::Biography => 0x1edd2b50_65e3_4542_8162_ec9dc1332c2bu128,
        Genre::FoodAndDrink => 0x26e9b484_844e_4a71_959a_fa053c340205u128,
        Genre::ArtAndPhotography => 0xecd24fdb_cdcb_4d89_bc6e_3aa06d69ceebu128,
        Genre::SelfHelp => 0x6893afd1_ba69_4ca7_a71d_d86efe876c03u128,
        Genre::History => 0xb4cb537a_f287_4e48_8e6a_e16d88416ab3u128,
        Genre::Travel => 0xca1cf171_1635_493b_a157_b08a92a20654u128,
        Genre::TrueCrime => 0x04f2b840_baee_4af2_af1b_afe110ae1801u128,
        Genre::Humor => 0xa86ff460_8e20_4176_8db9_29acaabacf99u128,
        Genre::Essays => 0x1f67e35e_487d_4717_9c12_cca8ea224cdcu128,
        Genre::ReligionAndSpirituality => 0x3f04f6f8_59b9_4afa_beb0_164a45afbbb5u128,
    }
}

/// Every genre, in the order they are stored.
pub open spec fn all_genres() -> Seq<Genre> {
    seq![
        Genre::Fantasy,
        Genre::ScienceFiction,
        Genre::Dystopian,
        Genre::ActionAndAdventure,
        Genre::Mystery,
        Genre::Horror,
        Genre::Thriller,
        Genre::HistoricalFiction,
        Genre::Romance,
        Genre::GraphicNovel,
        Genre::ShortStory,
        Genre::YoungAdult,
        Genre::Children,
        Genre::Autobiography,
        Genre::Biography,
        Genre::FoodAndDrink,
        Genre::ArtAndPhotography,
        Genre::SelfHelp,
        Genre::History,
        Genre::Travel,
        Genre::TrueCrime,
        Genre::Humor,
        Genre::Essays,
        Genre::ReligionAndSpirituality,
    ]
}

impl Genre {
    /// The name under which the genre is stored.
    pub fn name(&self) -> (s: &'static str)
        ensures
            s@ == genre_label(*self),
    {
        match self {
            Genre::Fantasy => "Fantasy",
            Genre::ScienceFiction => "Science Fiction",
            Genre::Dystopian => "Dystopian",
            Genre::ActionAndAdventure => "Action & Adventure",
            Genre::Mystery => "Mystery",
            Genre::Horror => "Horror",
            Genre::Thriller => "Thriller",
            Genre::HistoricalFiction => "Historical Fiction",
            Genre::Romance => "Romance",
            Genre::GraphicNovel => "Graphic Novel",
            Genre::ShortStory => "Short Story",
            Genre::YoungAdult => "Young Adult",
            Genre::Children => "Children",
            Genre::Autobiography => "Autobiography",
            Genre::Biography => "Biography",
            Genre::FoodAndDrink => "Food & Drink",
            Genre::ArtAndPhotography => "Art & Photography",
            Genre::SelfHelp => "Self-help",
            Genre::History => "History",
            Genre::Travel => "Travel",
            Genre::TrueCrime => "True Crime",
            Genre::Humor => "Humor",
            Genre::Essays => "Essays",
            Genre::ReligionAndSpirituality => "Religion & Spirituality",
        }
    }

    /// The fixed identifier of the genre.
    pub fn uuid(&self) -> (r: Uuid)
        ensures
            r.0 == genre_id(*self),
    {
        match self {
            Genre::Fantasy => Uuid(0x26f223a0_879b_4581_9f43_393ff0bf1dbbu128),
            Genre::ScienceFiction => Uuid(0x25a88e29_86e5_4cf6_a035_5c0d932e49e1u128),
            Genre::Dystopian => Uuid(0xc693ed78_35c1_4488_956a_63d4f8b028d3u128),
            Genre::ActionAndAdventure => Uuid(0xd637b371_6c57_4ddf_83c2_22580b81d646u128),
            Genre::Mystery => Uuid(0x2b8276ab_8a04_478f_b19b_1abab68ed9a7u128),
            Genre::Horror => Uuid(0x151bc0c4_e2b3_4090_bf91_43ce62dd5d26u128),
            Genre::Thriller => Uuid(0x7e6f2351_83c1_4a2c_9e4d_793d46301ad2u128),
            Genre::HistoricalFiction => Uuid(0xc12196b9_a845_4c79_a54c_9f9d42ae83dbu128),
            Genre::Romance => Uuid(0xe777568b_e417_4217_9315_4ef28b63807fu128),
            Genre::GraphicNovel => Uuid(0x50e0cb16_5c2f_4cac_a1fc_6f22f2307859u128),
            Genre::ShortStory => Uuid(0x4186b4d5_80c7_4d7a_a8d4_595cc6be0d66u128),
            Genre::YoungAdult => Uuid(0xab72338e_0934_4cbf_8f20_66ebcd5e01ceu128),
            Genre::Children => Uuid(0x197c53e7_b5f3_42d5_8241_1941a2c94402u128),
            Genre::Autobiography => Uuid(0x3346d4ee_51ac_4e98_ad81_c3703644041eu128),
            Genre::Biography => Uuid(0x1edd2b50_65e3_4542_8162_ec9dc1332c2bu128),
            Genre::FoodAndDrink => Uuid(0x26e9b484_844e_4a71_959a_fa053c340205u128),
            Genre::ArtAndPhotography => Uuid(0xecd24fdb_cdcb_4d89_bc6e_3aa06d69ceebu128),
            Genre::SelfHelp => Uuid(0x6893afd1_ba69_4ca7_a71d_d86efe876c03u128),
            Genre::History => Uuid(0xb4cb537a_f287_4e48_8e6a_e16d88416ab3u128),
            Genre::Travel => Uuid(0xca1cf171_1635_493b_a157_b08a92a20654u128),
            Genre::TrueCrime => Uuid(0x04f2b840_baee_4af2_af1b_afe110ae1801u128),
            Genre::Humor => Uuid(0xa86ff460_8e20_4176_8db9_29acaabacf99u128),
            Genre::Essays => Uuid(0x1f67e35e_487d_4717_9c12_cca8ea224cdcu128),
            Genre::ReligionAndSpirituality => Uuid(0x3f04f6f8_59b9_4afa_beb0_164a45afbbb5u128),
        }
    }

    /// Every genre, in the order they are stored.
    pub fn all() -> (r: Vec<Genre>)
        ensures
            r@ == all_genres(),
    {
        let r = vec![
            Genre::Fantasy,
            Genre::ScienceFiction,
            Genre::Dystopian,
            Genre::ActionAndAdventure,
            Genre::Mystery,
            Genre::Horror,
            Genre::Thriller,
            Genre::HistoricalFiction,
            Genre::Romance,
            Genre::GraphicNovel,
            Genre::ShortStory,
            Genre::YoungAdult,
            Genre::Children,
            Genre::Autobiography,
            Genre::Biography,
            Genre::FoodAndDrink,
            Genre::ArtAndPhotography,
            Genre::SelfHelp,
            Genre::History,
            Genre::Travel,
            Genre::TrueCrime,
            Genre::Humor,
            Genre::Essays,
            Genre::ReligionAndSpirituality,
        ];
        proof {
            assert(r@ =~= all_genres());
        }
        r
    }

    /// The stored record of the genre.
    pub fn record(&self) -> (r: records::Genre)
        ensures
            r@ == (genre_id(*self), genre_label(*self), false),
    {
        records::Genre { id: self.uuid(), name: Text(self.name().to_string()), deleted: false }
    }
}

/// The genres a new database starts with, one record for each genre in order.
pub fn default_genres() -> (r: Vec<records::Genre>)
    ensures
        r.len() == all_genres().len(),
        forall|i: int|
            0 <= i < r.len() ==> #[trigger] r[i]@ == (genre_id(all_genres()[i]), genre_label(
                all_genres()[i],
            ), false),
{
    let all = Genre::all();
    let mut r: Vec<records::Genre> = Vec::new();
    let mut i: usize = 0;
    while i < all.len()
        invariant
            i <= all.len(),
            all@ == all_genres(),
            r.len() == i,
            forall|j: int|
                0 <= j < i ==> #[trigger] r[j]@ == (genre_id(all_genres()[j]), genre_label(
                    all_genres()[j],
                ), false),
        decreases all.len() - i,
    {
        r.push(all[i].record());
        i = i + 1;
    }
    r
}

/// Different genres are stored under different identifiers.
pub proof fn lemma_genre_ids_distinct(a: Genre, b: Genre)
    requires
        a != b,
    ensures
        genre_id(a) != genre_id(b),
{
}

/// The paces a new database starts with.
#[derive(Clone, Copy, Debug, PartialEq, Eq, Structural)]
pub enum Pace {
    Slow,
    Medium,
    Fast,
}

/// The name under which a pace is stored.
pub open spec fn pace_label(x: Pace) -> Seq<char> {
    match x {
        Pace::Slow => "Slow"@,
        Pace::Medium => "Medium"@,
        Pace::Fast => "Fast"@,
    }
}

/// The fixed identifier under which a pace is stored.
pub open spec fn pace_id(x: Pace) -> u128 {
    match x {
        Pace::Slow => 0x7b0f2901_e058_4901_a527_307d4be12bafu128,
        Pace::Medium => 0x250c046e_f840_472d_93a4_18f5c666b4d4u128,
        Pace::Fast => 0x65bef1a9_75a6_490c_a1f0_68b6026192fau128,
    }
}

/// Every pace, in the order they are stored.
pub open spec fn all_paces() -> Seq<Pace> {
    seq![
        Pace::Slow,
        Pace::Medium,
        Pace::Fast,
    ]
}

impl Pace {
    /// The name under which the pace is stored.
    pub fn name(&self) -> (s: &'static str)
        ensures
            s@ == pace_label(*self),
    {
        match self {
            Pace::Slow => "Slow",
            Pace::Medium => "Medium",
            Pace::Fast => "Fast",
        }
    }

    /// The fixed identifier of the pace.
    pub fn uuid(&self) -> (r: Uuid)
        ensures
            r.0 == pace_id(*self),
    {
        match self {
            Pace::Slow => Uuid(0x7b0f2901_e058_4901_a527_307d4be12bafu128),
            Pace::Medium => Uuid(0x250c046e_f840_472d_93a4_18f5c666b4d4u128),
            Pace::Fast => Uuid(0x65bef1a9_75a6_490c_a1f0_68b6026192fau128),
        }
    }

    /// Every pace, in the order they are stored.
    pub fn all() -> (r: Vec<Pace>)
        ensures
            r@ == all_paces(),
    {
        let r = vec![
            Pace::Slow,
            Pace::Medium,
            Pace::Fast,
        ];
        proof {
            assert(r@ =~= all_paces());
        }
        r
    }

    /// The stored record of the pace.
    pub fn record(&self) -> (r: records::Pace)
        ensures
            r@ == (pace_id(*self), pace_label(*self), false),
    {
        records::Pace { id: self.uuid(), name: Text(self.name().to_string()), deleted: false }
    }
}

/// The paces a new database starts with, one record for each pace in order.
pub fn default_paces() -> (r: Vec<records::Pace>)
    ensures
        r.len() == all_paces().len(),
        forall|i: int|
            0 <= i < r.len() ==> #[trigger] r[i]@ == (pace_id(all_paces()[i]), pace_label(
                all_paces()[i],
            ), false),
{
    let all = Pace::all();
    let mut r: Vec<records::Pace> = Vec::new();
    let mut i: usize = 0;
    while i < all.len()
        invariant
            i <= all.len(),
            all@ == all_paces(),
            r.len() == i,
            forall|j: int|
                0 <= j < i ==> #[trigger] r[j]@ == (pace_id(all_paces()[j]), pace_label(
                    all_paces()[j],
                ), false),
        decreases all.len() - i,
    {
        r.push(all[i].record());
        i = i + 1;
    }
    r
}

/// Different paces are stored under different identifiers.
pub proof fn lemma_pace_ids_distinct(a: Pace, b: Pace)
    requires
        a != b,
    ensures
        pace_id(a) != pace_id(b),
{
}

/// The moods a new database starts with.
#[derive(Clone, Copy, Debug, PartialEq, Eq, Structural)]
pub enum Mood {
    Adventurous,
    Challenging,
    Dark,
    Emotional,
    Funny,
    Hopeful,
    Informative,
    Inspiring,
    Lighthearted,
    Mysterious,
    Reflective,
    Relaxing,
    Sad,
    Tense,
}

/// The name under which a mood is stored.
pub open spec fn mood_label(x: Mood) -> Seq<char> {
    match x {
        Mood::Adventurous => "Adventurous"@,
        Mood::Challenging => "Challenging"@,
        Mood::Dark => "Dark"@,
        Mood::Emotional => "Emotional"@,
        Mood::Funny => "Funny"@,
        Mood::Hopeful => "Hopeful"@,
        Mood::Informative => "Informative"@,
        Mood::Inspiring => "Inspiring"@,
        Mood::Lighthearted => "Lighthearted"@,
        Mood::Mysterious => "Mysterious"@,
        Mood::Reflective => "Reflective"@,
        Mood::Relaxing => "Relaxing"@,
        Mood::Sad => "Sad"@,
        Mood::Tense => "Tense"@,
    }
}

/// The fixed identifier under which a mood is stored.
pub open spec fn mood_id(x: Mood) -> u128 {
    match x {
        Mood::Adventurous => 0xe7291183_ba90_48a3_b102_b21e732fd2c0u128,
        Mood::Challenging => 0x95c5140e_f62d_4982_8858_c5336bd9df70u128,
        Mood::Dark => 0x37f3beee_ba35_4957_ae9c_fb4f19827e4cu128,
        Mood::Emotional => 0xb4b06dd1_be29_4914_8a6e_a11d7e12849cu128,
        Mood::Funny => 0x6665ef19_ebdc_4bdb_bcb4_845f0d04f896u128,
        Mood::Hopeful => 0x9c2d0812_6c25_4294_a917_6e7faa826ae8u128,
        Mood::Informative => 0x4ba07184_92f3_41d0_b733_d3e403a7f533u128,
        Mood::Inspiring => 0x07532c14_9bf5_442b_bd63_6038a40aaad0u128,
        Mood::Lighthearted => 0x5447082a_bef4_4b27_8906_fc7b3124ecd6u128,
        Mood::Mysterious => 0x0c86213f_64f4_47ab_ac29_e3fc4c0666b2u128,
        Mood::Reflective => 0x12ff33e3_3b65_4821_afd6_5c2bdb1d9a60u128,
        Mood::Relaxing => 0x3516a18c_a3f4_408a_9388_1790efddb538u128,
        Mood::Sad => 0xbb2c5921_eee5_4a62_aa83_cb7834e558c2u128,
        Mood::Tense => 0x7f584f2d_35f1_4fec_aeba_e62c7212398fu128,
    }
}

/// Every mood, in the order they are stored.
pub open spec fn all_moods() -> Seq<Mood> {
    seq![
        Mood::Adventurous,
        Mood::Challenging,
        Mood::Dark,
        Mood::Emotional,
        Mood::Funny,
        Mood::Hopeful,
        Mood::Informative,
        Mood::Inspiring,
        Mood::Lighthearted,
        Mood::Mysterious,
        Mood::Reflective,
        Mood::Relaxing,
        Mood::Sad,
        Mood::Tense,
    ]
}

impl Mood {
    /// The name under which the mood is stored.
    pub fn name(&self) -> (s: &'static str)
        ensures
            s@ == mood_label(*self),
    {
        match self {
            Mood::Adventurous => "Adventurous",
            Mood::Challenging => "Challenging",
            Mood::Dark => "Dark",
            Mood::Emotional => "Emotional",
            Mood::Funny => "Funny",
            Mood::Hopeful => "Hopeful",
            Mood::Informative => "Informative",
            Mood::Inspiring => "Inspiring",
            Mood::Lighthearted => "Lighthearted",
            Mood::Mysterious => "Mysterious",
            Mood::Reflective => "Reflective",
            Mood::Relaxing => "Relaxing",
            Mood::Sad => "Sad",
            Mood::Tense => "Tense",
        }
    }

    /// The fixed identifier of the mood.
    pub fn uuid(&self) -> (r: Uuid)
        ensures
            r.0 == mood_id(*self),
    {
        match self {
            Mood::Adventurous => Uuid(0xe7291183_ba90_48a3_b102_b21e732fd2c0u128),
            Mood::Challenging => Uuid(0x95c5140e_f62d_4982_8858_c5336bd9df70u128),
            Mood::Dark => Uuid(0x37f3beee_ba35_4957_ae9c_fb4f19827e4cu128),
            Mood::Emotional => Uuid(0xb4b06dd1_be29_4914_8a6e_a11d7e12849cu128),
            Mood::Funny => Uuid(0x6665ef19_ebdc_4bdb_bcb4_845f0d04f896u128),
            Mood::Hopeful => Uuid(0x9c2d0812_6c25_4294_a917_6e7faa826ae8u128),
            Mood::Informative => Uuid(0x4ba07184_92f3_41d0_b733_d3e403a7f533u128),
            Mood::Inspiring => Uuid(0x07532c14_9bf5_442b_bd63_6038a40aaad0u128),
            Mood::Lighthearted => Uuid(0x5447082a_bef4_4b27_8906_fc7b3124ecd6u128),
            Mood::Mysterious => Uuid(0x0c86213f_64f4_47ab_ac29_e3fc4c0666b2u128),
            Mood::Reflective => Uuid(0x12ff33e3_3b65_4821_afd6_5c2bdb1d9a60u128),
            Mood::Relaxing => Uuid(0x3516a18c_a3f4_408a_9388_1790efddb538u128),
            Mood::Sad => Uuid(0xbb2c5921_eee5_4a62_aa83_cb7834e558c2u128),
            Mood::Tense => Uuid(0x7f584f2d_35f1_4fec_aeba_e62c7212398fu128),
        }
    }

    /// Every mood, in the order they are stored.
    pub fn all() -> (r: Vec<Mood>)
        ensures
            r@ == all_moods(),
    {
        let r = vec![
            Mood::Adventurous,
            Mood::Challenging,
            Mood::Dark,
            Mood::Emotional,
            Mood::Funny,
            Mood::Hopeful,
            Mood::Informative,
            Mood::Inspiring,
            Mood::Lighthearted,
            Mood::Mysterious,
            Mood::Reflective,
            Mood::Relaxing,
            Mood::Sad,
            Mood::Tense,
        ];
        proof {
            assert(r@ =~= all_moods());
        }
        r
    }

    /// The stored record of the mood.
    pub fn record(&self) -> (r: records::Mood)
        ensures
            r@ == (mood_id(*self), mood_label(*self), false),
    {
        records::Mood { id: self.uuid(), name: Text(self.name().to_string()), deleted: false }
    }
}

/// The moods a new database starts with, one record for each mood in order.
pub fn default_moods() -> (r: Vec<records::Mood>)
    ensures
        r.len() == all_moods().len(),
        forall|i: int|
            0 <= i < r.len() ==> #[trigger] r[i]@ == (mood_id(all_moods()[i]), mood_label(
                all_moods()[i],
            ), false),
{
    let all = Mood::all();
    let mut r: Vec<records::Mood> = Vec::new();
    let mut i: usize = 0;
    while i < all.len()
        invariant
            i <= all.len(),
            all@ == all_moods(),
            r.len() == i,
            forall|j: int|
                0 <= j < i ==> #[trigger] r[j]@ == (mood_id(all_moods()[j]), mood_label(
                    all_moods()[j],
                ), false),
        decreases all.len() - i,
    {
        r.push(all[i].record());
        i = i + 1;
    }
    r
}

/// Different moods are stored under different identifiers.
pub proof fn lemma_mood_ids_distinct(a: Mood, b: Mood)
    requires
        a != b,
    ensures
        mood_id(a) != mood_id(b),
{
}

/// The number of publishers a new database starts with.
pub open spec fn default_publisher_count() -> int {
    9
}

/// The identifier and name of the `i`-th of the publishers a new database starts with.
pub open spec fn default_publisher(i: int) -> (u128, Seq<char>) {
    if i == 0 {
        (0x2334916b_e46c_4acf_ba6c_c2145f8e4be8u128, "Penguin Random House"@)
    } else if i == 1 {
        (0x103c44fe_337a_46c9_8cfe_769d31af7557u128, "Hachette Livre"@)
    } else if i == 2 {
        (0x9f7ba146_adde_46a8_bacc_e2b0cdd76279u128, "HarperCollins"@)
    } else if i == 3 {
        (0xf11b4ba2_e7f6_40a3_b48c_16d4113a1754u128, "Pan Macmillan"@)
    } else if i == 4 {
        (0x5fee5de1_34e7_4ce6_b77f_b372024c517du128, "Pearson Education"@)
    } else if i == 5 {
        (0x7cb9511d_c1c9_416f_8fc6_b5146eb22d3eu128, "Oxford University Press"@)
    } else if i == 6 {
        (0x5f478846_4b3a_4dc2_9613_81545a313b1bu128, "Bloomsbury"@)
    } else if i == 7 {
        (0x0a2ae995_4657_4814_86ca_df96e1b6ec0bu128, "Simon & Schuster"@)
    } else {
        (0xf524b405_45d0_4709_a7bd_73714239e05bu128, "John Wiley & Sons"@)
    }
}

/// The identifier and name of the `i`-th of the default publishers.
fn default_publisher_at(i: usize) -> (r: (u128, &'static str))
    requires
        i < default_publisher_count(),
    ensures
        r.0 == default_publisher(i as int).0,
        r.1@ == default_publisher(i as int).1,
{
    if i == 0 {
        (0x2334916b_e46c_4acf_ba6c_c2145f8e4be8u128, "Penguin Random House")
    } else if i == 1 {
        (0x103c44fe_337a_46c9_8cfe_769d31af7557u128, "Hachette Livre")
    } else if i == 2 {
        (0x9f7ba146_adde_46a8_bacc_e2b0cdd76279u128, "HarperCollins")
    } else if i == 3 {
        (0xf11b4ba2_e7f6_40a3_b48c_16d4113a1754u128, "Pan Macmillan")
    } else if i == 4 {
        (0x5fee5de1_34e7_4ce6_b77f_b372024c517du128, "Pearson Education")
    } else if i == 5 {
        (0x7cb9511d_c1c9_416f_8fc6_b5146eb22d3eu128, "Oxford University Press")
    } else if i == 6 {
        (0x5f478846_4b3a_4dc2_9613_81545a313b1bu128, "Bloomsbury")
    } else if i == 7 {
        (0x0a2ae995_4657_4814_86ca_df96e1b6ec0bu128, "Simon & Schuster")
    } else {
        (0xf524b405_45d0_4709_a7bd_73714239e05bu128, "John Wiley & Sons")
    }
}

/// The publishers a new database starts with.
pub fn default_publishers() -> (r: Vec<records::Publisher>)
    ensures
        r.len() == default_publisher_count(),
        forall|i: int|
            0 <= i < r.len() ==> #[trigger] r[i]@ == (default_publisher(i).0, default_publisher(i).1, false),
{
    let mut r: Vec<records::Publisher> = Vec::new();
    let mut i: usize = 0;
    while i < 9
        invariant
            i <= 9,
            r.len() == i,
            forall|j: int|
                0 <= j < i ==> #[trigger] r[j]@ == (default_publisher(j).0, default_publisher(j).1, false),
        decreases 9 - i,
    {
        let (id, name) = default_publisher_at(i);
        r.push(records::Publisher { id: Uuid(id), name: Text(name.to_string()), deleted: false });
        i = i + 1;
    }
    r
}

/// The default publishers are stored under different identifiers.
pub proof fn lemma_default_publisher_ids_distinct(i: int, j: int)
    requires
        0 <= i < j < default_publisher_count(),
    ensures
        default_publisher(i).0 != default_publisher(j).0,
{
}

/// The number of bindings a new database starts with.
pub open spec fn default_binding_count() -> int {
    10
}

/// The identifier and name of the `i`-th of the bindings a new database starts with.
pub open spec fn default_binding(i: int) -> (u128, Seq<char>) {
    if i == 0 {
        (0x11a8d073_879f_4970_871c_d1618a776784u128, "Perfect binding"@)
    } else if i == 1 {
        (0x6ff10b06_bf48_49c7_8fa9_d3ef247a6858u128, "Case binding"@)
    } else if i == 2 {
        (0x519f4975_7a4c_4a17_8927_cafc51f0d827u128, "Saddle-stitching"@)
    } else if i == 3 {
        (0xf2b62dd1_26d9_4e5c_a2c6_11c7e7fabb8du128, "Spiral binding"@)
    } else if i == 4 {
        (0x9fbb9b81_185b_4ab4_a07a_166142337e9eu128, "Spiral wire binding"@)
    } else if i == 5 {
        (0xfeaced93_58df_48c1_be9d_50f1a94e6404u128, "Comb binding"@)
    } else if i == 6 {
        (0xd1b9b408_f446_4c2f_be1c_5d3f323e41f0u128, "Tape binding"@)
    } else if i == 7 {
        (0xac1b9213_31c7_452d_b995_8bc01fd367e1u128, "Perfect binding with sewn signatures"@)
    } else if i == 8 {
        (0xea812bd7_df7f_4cf0_b8d8_31d39bfe18d9u128, "Japanese stab binding"@)
    } else {
        (0xec5ba23c_4c1b_4950_b2d5_fad8ef85d855u128, "Hand-stitched binding"@)
    }
}

/// The identifier and name of the `i`-th of the default bindings.
fn default_binding_at(i: usize) -> (r: (u128, &'static str))
    requires
        i < default_binding_count(),
    ensures
        r.0 == default_binding(i as int).0,
        r.1@ == default_binding(i as int).1,
{
    if i == 0 {
        (0x11a8d073_879f_4970_871c_d1618a776784u128, "Perfect binding")
    } else if i == 1 {
        (0x6ff10b06_bf48_49c7_8fa9_d3ef247a6858u128, "Case binding")
    } else if i == 2 {
        (0x519f4975_7a4c_4a17_8927_cafc51f0d827u128, "Saddle-stitching")
    } else if i == 3 {
        (0xf2b62dd1_26d9_4e5c_a2c6_11c7e7fabb8du128, "Spiral binding")
    } else if i == 4 {
        (0x9fbb9b81_185b_4ab4_a07a_166142337e9eu128, "Spiral wire binding")
    } else if i == 5 {
        (0xfeaced93_58df_48c1_be9d_50f1a94e6404u128, "Comb binding")
    } else if i == 6 {
        (0xd1b9b408_f446_4c2f_be1c_5d3f323e41f0u128, "Tape binding")
    } else if i == 7 {
        (0xac1b9213_31c7_452d_b995_8bc01fd367e1u128, "Perfect binding with sewn signatures")
    } else if i == 8 {
        (0xea812bd7_df7f_4cf0_b8d8_31d39bfe18d9u128, "Japanese stab binding")
    } else {
        (0xec5ba23c_4c1b_4950_b2d5_fad8ef85d855u128, "Hand-stitched binding")
    }
}

/// The bindings a new database starts with.
pub fn default_bindings() -> (r: Vec<records::Binding>)
    ensures
        r.len() == default_binding_count(),
        forall|i: int|
            0 <= i < r.len() ==> #[trigger] r[i]@ == (default_binding(i).0, default_binding(i).1, false),
{
    let mut r: Vec<records::Binding> = Vec::new();
    let mut i: usize = 0;
    while i < 10
        invariant
            i <= 10,
            r.len() == i,
            forall|j: int|
                0 <= j < i ==> #[trigger] r[j]@ == (default_binding(j).0, default_binding(j).1, false),
        decreases 10 - i,
    {
        let (id, name) = default_binding_at(i);
        r.push(records::Binding { id: Uuid(id), name: Text(name.to_string()), deleted: false });
        i = i + 1;
    }
    r
}

/// The default bindings are stored under different identifiers.
pub proof fn lemma_default_binding_ids_distinct(i: int, j: int)
    requires
        0 <= i < j < default_binding_count(),
    ensures
        default_binding(i).0 != default_binding(j).0,
{
}

/// The number of formats a new database starts with.
pub open spec fn default_format_count() -> int {
    4
}

/// The identifier and name of the `i`-th of the formats a new database starts with.
pub open spec fn default_format(i: int) -> (u128, Seq<char>) {
    if i == 0 {
        (0x93b3f802_21df_486c_b15b_3da96f533c01u128, "Paperback"@)
    } else if i == 1 {
        (0x249f84dc_b704_4bb1_8f48_b78ad973c543u128, "Hardcover"@)
    } else if i == 2 {
        (0x5e6b39a9_6f6f_4cf0_a92c_55088c36202fu128, "Ebook"@)
    } else {
        (0xed96d107_3ba7_4328_9e15_c9b583863a17u128, "Audiobook"@)
    }
}

/// The identifier and name of the `i`-th of the default formats.
fn default_format_at(i: usize) -> (r: (u128, &'static str))
    requires
        i < default_format_count(),
    ensures
        r.0 == default_format(i as int).0,
        r.1@ == default_format(i as int).1,
{
    if i == 0 {
        (0x93b3f802_21df_486c_b15b_3da96f533c01u128, "Paperback")
    } else if i == 1 {
        (0x249f84dc_b704_4bb1_8f48_b78ad973c543u128, "Hardcover")
    } else if i == 2 {
        (0x5e6b39a9_6f6f_4cf0_a92c_55088c36202fu128, "Ebook")
    } else {
        (0xed96d107_3ba7_4328_9e15_c9b583863a17u128, "Audiobook")
    }
}

/// The formats a new database starts with.
pub fn default_formats() -> (r: Vec<records::EditionFormat>)
    ensures
        r.len() == default_format_count(),
        forall|i: int|
            0 <= i < r.len() ==> #[trigger] r[i]@ == (default_format(i).0, default_format(i).1, false),
{
    let mut r: Vec<records::EditionFormat> = Vec::new();
    let mut i: usize = 0;
    while i < 4
        invariant
            i <= 4,
            r.len() == i,
            forall|j: int|
                0 <= j < i ==> #[trigger] r[j]@ == (default_format(j).0, default_format(j).1, false),
        decreases 4 - i,
    {
        let (id, name) = default_format_at(i);
        r.push(records::EditionFormat { id: Uuid(id), name: Text(name.to_string()), deleted: false });
        i = i + 1;
    }
    r
}

/// The default formats are stored under different identifiers.
pub proof fn lemma_default_format_ids_distinct(i: int, j: int)
    requires
        0 <= i < j < default_format_count(),
    ensures
        default_format(i).0 != default_format(j).0,
{
}

/// The number of languages a new database starts with.
pub open spec fn default_language_count() -> int {
    1
}

/// The identifier and name of the `i`-th of the languages a new database starts with.
pub open spec fn default_language(i: int) -> (u128, Seq<char>) {
    (0xa95f5f6e_8560_4b02_9443_14f7502d28feu128, "English"@)
}

/// The identifier and name of the `i`-th of the default languages.
fn default_language_at(i: usize) -> (r: (u128, &'static str))
    requires
        i < default_language_count(),
    ensures
        r.0 == default_language(i as int).0,
        r.1@ == default_language(i as int).1,
{
    (0xa95f5f6e_8560_4b02_9443_14f7502d28feu128, "English")
}

/// The languages a new database starts with.
pub fn default_languages() -> (r: Vec<records::Language>)
    ensures
        r.len() == default_language_count(),
        forall|i: int|
            0 <= i < r.len() ==> #[trigger] r[i]@ == (default_language(i).0, default_language(i).1, false),
{
    let mut r: Vec<records::Language> = Vec::new();
    let mut i: usize = 0;
    while i < 1
        invariant
            i <= 1,
            r.len() == i,
            forall|j: int|
                0 <= j < i ==> #[trigger] r[j]@ == (default_language(j).0, default_language(j).1, false),
        decreases 1 - i,
    {
        let (id, name) = default_language_at(i);
        r.push(records::Language { id: Uuid(id), name: Text(name.to_string()), deleted: false });
        i = i + 1;
    }
    r
}

} // verus!
