//! Reference tables: the names behind the ids that the packets carry.
//!
//! Each table is entered into a map that the caller holds. An entry that the
//! map held under an id of the table is replaced; every other entry stays.

use std::collections::HashMap;
use vstd::prelude::*;

verus! {

/// `m` with each team entered under its id.
pub open spec fn with_teams(m: Map<usize, &'static str>) -> Map<usize, &'static str> {
    m
        .insert(0, "Mercedes")
        .insert(1, "Ferrari")
        .insert(2, "Red Bull Racing")
        .insert(3, "Williams")
        .insert(4, "Racing Point")
        .insert(5, "Renault")
        .insert(6, "Toro Rosso")
        .insert(7, "Haas")
        .insert(8, "McLaren")
        .insert(9, "Alfa Romeo")
        .insert(10, "McLaren 1988")
        .insert(11, "McLaren 1991")
        .insert(12, "Williams 1992")
        .insert(13, "Ferrari 1995")
        .insert(14, "Williams 1996")
        .insert(15, "McLaren 1998")
        .insert(16, "Ferrari 2002")
        .insert(17, "Ferrari 2004")
        .insert(18, "Renault 2006")
        .insert(19, "Ferrari 2007")
        .insert(21, "Red Bull 2010")
        .insert(22, "Ferrari 1976")
        .insert(23, "ART Grand Prix")
        .insert(24, "Campos Vexatec Racing")
        .insert(25, "Carlin")
        .insert(26, "Charouz Racing System")
        .insert(27, "DAMS")
        .insert(28, "Russian Time")
        .insert(29, "MP Motorsport")
        .insert(30, "Pertamina")
        .insert(31, "McLaren 1990")
        .insert(32, "Trident")
        .insert(33, "BWT Arden")
        .insert(34, "McLaren 1976")
        .insert(35, "Lotus 1972")
        .insert(36, "Ferrari 1979")
        .insert(37, "McLaren 1982")
        .insert(38, "Williams 2003")
        .insert(39, "Brawn 2009")
        .insert(40, "Lotus 1978")
        .insert(42, "Art GP ’19")
        .insert(43, "Campos ’19")
        .insert(44, "Carlin ’19")
        .insert(45, "Sauber Junior Charouz ’19")
        .insert(46, "Dams ’19")
        .insert(47, "Uni-Virtuosi ‘19")
        .insert(48, "MP Motorsport ‘19")
        .insert(49, "Prema ’19")
        .insert(50, "Trident ’19")
        .insert(51, "Arden ’19")
        .insert(63, "Ferrari 1990")
        .insert(64, "McLaren 2010")
        .insert(65, "Ferrari 2010")
}

/// Enters the teams into `map`, each under its id.
pub fn init_teams(map: &mut HashMap<usize, &str>)
    ensures
        final(map)@ == with_teams(old(map)@),
{
    map.insert(0, "Mercedes");
    map.insert(1, "Ferrari");
    map.insert(2, "Red Bull Racing");
    map.insert(3, "Williams");
    map.insert(4, "Racing Point");
    map.insert(5, "Renault");
    map.insert(6, "Toro Rosso");
    map.insert(7, "Haas");
    map.insert(8, "McLaren");
    map.insert(9, "Alfa Romeo");
    map.insert(10, "McLaren 1988");
    map.insert(11, "McLaren 1991");
    map.insert(12, "Williams 1992");
    map.insert(13, "Ferrari 1995");
    map.insert(14, "Williams 1996");
    map.insert(15, "McLaren 1998");
    map.insert(16, "Ferrari 2002");
    map.insert(17, "Ferrari 2004");
    map.insert(18, "Renault 2006");
    map.insert(19, "Ferrari 2007");
    map.insert(21, "Red Bull 2010");
    map.insert(22, "Ferrari 1976");
    map.insert(23, "ART Grand Prix");
    map.insert(24, "Campos Vexatec Racing");
    map.insert(25, "Carlin");
    map.insert(26, "Charouz Racing System");
    map.insert(27, "DAMS");
    map.insert(28, "Russian Time");
    map.insert(29, "MP Motorsport");
    map.insert(30, "Pertamina");
    map.insert(31, "McLaren 1990");
    map.insert(32, "Trident");
    map.insert(33, "BWT Arden");
    map.insert(34, "McLaren 1976");
    map.insert(35, "Lotus 1972");
    map.insert(36, "Ferrari 1979");
    map.insert(37, "McLaren 1982");
    map.insert(38, "Williams 2003");
    map.insert(39, "Brawn 2009");
    map.insert(40, "Lotus 1978");
    map.insert(42, "Art GP ’19");
    map.insert(43, "Campos ’19");
    map.insert(44, "Carlin ’19");
    map.insert(45, "Sauber Junior Charouz ’19");
    map.insert(46, "Dams ’19");
    map.insert(47, "Uni-Virtuosi ‘19");
    map.insert(48, "MP Motorsport ‘19");
    map.insert(49, "Prema ’19");
    map.insert(50, "Trident ’19");
    map.insert(51, "Arden ’19");
    map.insert(63, "Ferrari 1990");
    map.insert(64, "McLaren 2010");
    map.insert(65, "Ferrari 2010");
}

/// `m` with each driver entered under its id.
pub open spec fn with_drivers(m: Map<usize, &'static str>) -> Map<usize, &'static str> {
    m
        .insert(0, "Carlos Sainz")
        .insert(1, "Daniil Kvyat")
        .insert(2, "Daniel Ricciardo")
        .insert(6, "Kimi Räikkönen")
        .insert(7, "Lewis Hamilton")
        .insert(9, "Max Verstappen")
        .insert(10, "Nico Hulkenburg")
        .insert(11, "Kevin Magnussen")
        .insert(12, "Romain Grosjean")
        .insert(13, "Sebastian Vettel")
        .insert(14, "Sergio Perez")
        .insert(15, "Valtteri Bottas")
        .insert(19, "Lance Stroll")
        .insert(20, "Arron Barnes")
        .insert(21, "Martin Giles")
        .insert(22, "Alex Murray")
        .insert(23, "Lucas Roth")
        .insert(24, "Igor Correia")
        .insert(25, "Sophie Levasseur")
        .insert(26, "Jonas Schiffer")
        .insert(27, "Alain Forest")
        .insert(28, "Jay Letourneau")
        .insert(29, "Esto Saari")
        .insert(30, "Yasar Atiyeh")
        .insert(31, "Callisto Calabresi")
        .insert(32, "Naota Izum")
        .insert(33, "Howard Clarke")
        .insert(34, "Wilheim Kaufmann")
        .insert(35, "Marie Laursen")
        .insert(36, "Flavio Nieves")
        .insert(37, "Peter Belousov")
        .insert(38, "Klimek Michalski")
        .insert(39, "Santiago Moreno")
        .insert(40, "Benjamin Coppens")
        .insert(41, "Noah Visser")
        .insert(42, "Gert Waldmuller")
        .insert(43, "Julian Quesada")
        .insert(44, "Daniel Jones")
        .insert(45, "Artem Markelov")
        .insert(46, "Tadasuke Makino")
        .insert(47, "Sean Gelael")
        .insert(48, "Nyck De Vries")
        .insert(49, "Jack Aitken")
        .insert(50, "George Russell")
        .insert(51, "Maximilian Günther")
        .insert(52, "Nirei Fukuzumi")
        .insert(53, "Luca Ghiotto")
        .insert(54, "Lando Norris")
        .insert(55, "Sérgio Sette Câmara")
        .insert(56, "Louis Delétraz")
        .insert(57, "Antonio Fuoco")
        .insert(58, "Charles Leclerc")
        .insert(59, "Pierre Gasly")
        .insert(62, "Alexander Albon")
        .insert(63, "Nicholas Latifi")
        .insert(64, "Dorian Boccolacci")
        .insert(65, "Niko Kari")
        .insert(66, "Roberto Merhi")
        .insert(67, "Arjun Maini")
        .insert(68, "Alessio Lorandi")
        .insert(69, "Ruben Meijer")
        .insert(70, "Rashid Nair")
        .insert(71, "Jack Tremblay")
        .insert(74, "Antonio Giovinazzi")
        .insert(75, "Robert Kubica")
        .insert(78, "Nobuharu Matsushita")
        .insert(79, "Nikita Mazepin")
        .insert(80, "Guanya Zhou")
        .insert(81, "Mick Schumacher")
        .insert(82, "Callum Ilott")
        .insert(83, "Juan Manuel Correa")
        .insert(84, "Jordan King")
        .insert(85, "Mahaveer Raghunathan")
        .insert(86, "Tatiana Calderon")
        .insert(87, "Anthoine Hubert")
        .insert(88, "Guiliano Alesi")
        .insert(89, "Ralph Boschung")
}

/// Enters the drivers into `map`, each under its id.
pub fn init_drivers(map: &mut HashMap<usize, &str>)
    ensures
        final(map)@ == with_drivers(old(map)@),
{
    map.insert(0, "Carlos Sainz");
    map.insert(1, "Daniil Kvyat");
    map.insert(2, "Daniel Ricciardo");
    map.insert(6, "Kimi Räikkönen");
    map.insert(7, "Lewis Hamilton");
    map.insert(9, "Max Verstappen");
    map.insert(10, "Nico Hulkenburg");
    map.insert(11, "Kevin Magnussen");
    map.insert(12, "Romain Grosjean");
    map.insert(13, "Sebastian Vettel");
    map.insert(14, "Sergio Perez");
    map.insert(15, "Valtteri Bottas");
    map.insert(19, "Lance Stroll");
    map.insert(20, "Arron Barnes");
    map.insert(21, "Martin Giles");
    map.insert(22, "Alex Murray");
    map.insert(23, "Lucas Roth");
    map.insert(24, "Igor Correia");
    map.insert(25, "Sophie Levasseur");
    map.insert(26, "Jonas Schiffer");
    map.insert(27, "Alain Forest");
    map.insert(28, "Jay Letourneau");
    map.insert(29, "Esto Saari");
    map.insert(30, "Yasar Atiyeh");
    map.insert(31, "Callisto Calabresi");
    map.insert(32, "Naota Izum");
    map.insert(33, "Howard Clarke");
    map.insert(34, "Wilheim Kaufmann");
    map.insert(35, "Marie Laursen");
    map.insert(36, "Flavio Nieves");
    map.insert(37, "Peter Belousov");
    map.insert(38, "Klimek Michalski");
    map.insert(39, "Santiago Moreno");
    map.insert(40, "Benjamin Coppens");
    map.insert(41, "Noah Visser");
    map.insert(42, "Gert Waldmuller");
    map.insert(43, "Julian Quesada");
    map.insert(44, "Daniel Jones");
    map.insert(45, "Artem Markelov");
    map.insert(46, "Tadasuke Makino");
    map.insert(47, "Sean Gelael");
    map.insert(48, "Nyck De Vries");
    map.insert(49, "Jack Aitken");
    map.insert(50, "George Russell");
    map.insert(51, "Maximilian Günther");
    map.insert(52, "Nirei Fukuzumi");
    map.insert(53, "Luca Ghiotto");
    map.insert(54, "Lando Norris");
    map.insert(55, "Sérgio Sette Câmara");
    map.insert(56, "Louis Delétraz");
    map.insert(57, "Antonio Fuoco");
    map.insert(58, "Charles Leclerc");
    map.insert(59, "Pierre Gasly");
    map.insert(62, "Alexander Albon");
    map.insert(63, "Nicholas Latifi");
    map.insert(64, "Dorian Boccolacci");
    map.insert(65, "Niko Kari");
    map.insert(66, "Roberto Merhi");
    map.insert(67, "Arjun Maini");
    map.insert(68, "Alessio Lorandi");
    map.insert(69, "Ruben Meijer");
    map.insert(70, "Rashid Nair");
    map.insert(71, "Jack Tremblay");
    map.insert(74, "Antonio Giovinazzi");
    map.insert(75, "Robert Kubica");
    map.insert(78, "Nobuharu Matsushita");
    map.insert(79, "Nikita Mazepin");
    map.insert(80, "Guanya Zhou");
    map.insert(81, "Mick Schumacher");
    map.insert(82, "Callum Ilott");
    map.insert(83, "Juan Manuel Correa");
    map.insert(84, "Jordan King");
    map.insert(85, "Mahaveer Raghunathan");
    map.insert(86, "Tatiana Calderon");
    map.insert(87, "Anthoine Hubert");
    map.insert(88, "Guiliano Alesi");
    map.insert(89, "Ralph Boschung");
}

/// `m` with each track entered under its id.
pub open spec fn with_tracks(m: Map<usize, &'static str>) -> Map<usize, &'static str> {
    m
        .insert(0, "Melbourne")
        .insert(1, "Paul Ricard")
        .insert(2, "Shanghai")
        .insert(3, "Sakhir Bahrain")
        .insert(4, "Catalunya")
        .insert(5, "Monaco")
        .insert(6, "Montreal")
        .insert(7, "Silverstone")
        .insert(8, "Hockenheim")
        .insert(9, "Hungaroring")
        .insert(10, "Spa")
        .insert(11, "Monza")
        .insert(12, "Singapore")
        .insert(13, "Suzuka")
        .insert(14, "Abu Dhabi")
        .insert(15, "Texas")
        .insert(16, "Brazil")
        .insert(17, "Austria")
        .insert(18, "Sochi")
        .insert(19, "Mexico")
        .insert(20, "Baku Azerbaijan")
        .insert(21, "Sakhir Short")
        .insert(22, "Silverstone Short")
        .insert(23, "Texas Short")
        .insert(24, "Suzuka Short")
}

/// Enters the tracks into `map`, each under its id.
pub fn init_tracks(map: &mut HashMap<usize, &str>)
    ensures
        final(map)@ == with_tracks(old(map)@),
{
    map.insert(0, "Melbourne");
    map.insert(1, "Paul Ricard");
    map.insert(2, "Shanghai");
    map.insert(3, "Sakhir Bahrain");
    map.insert(4, "Catalunya");
    map.insert(5, "Monaco");
    map.insert(6, "Montreal");
    map.insert(7, "Silverstone");
    map.insert(8, "Hockenheim");
    map.insert(9, "Hungaroring");
    map.insert(10, "Spa");
    map.insert(11, "Monza");
    map.insert(12, "Singapore");
    map.insert(13, "Suzuka");
    map.insert(14, "Abu Dhabi");
    map.insert(15, "Texas");
    map.insert(16, "Brazil");
    map.insert(17, "Austria");
    map.insert(18, "Sochi");
    map.insert(19, "Mexico");
    map.insert(20, "Baku Azerbaijan");
    map.insert(21, "Sakhir Short");
    map.insert(22, "Silverstone Short");
    map.insert(23, "Texas Short");
    map.insert(24, "Suzuka Short");
}

/// `m` with each nationality entered under its id.
pub open spec fn with_countries(m: Map<usize, &'static str>) -> Map<usize, &'static str> {
    m
        .insert(1, "American")
        .insert(2, "Argentinean")
        .insert(3, "Australian")
        .insert(4, "Austrian")
        .insert(5, "Azerbaijani")
        .insert(6, "Bahraini")
        .insert(7, "Belgian")
        .insert(8, "Bolivian")
        .insert(9, "Brazilian")
        .insert(10, "British")
        .insert(11, "Bulgarian")
        .insert(12, "Cameroonian")
        .insert(13, "Canadian")
        .insert(14, "Chilean")
        .insert(15, "Chinese")
        .insert(16, "Colombian")
        .insert(17, "Costa Rican")
        .insert(18, "Croatian")
        .insert(19, "Cypriot")
        .insert(20, "Czech")
        .insert(21, "Danish")
        .insert(22, "Dutch")
        .insert(23, "Ecuadorian")
        .insert(24, "English")
        .insert(25, "Emirian")
        .insert(26, "Estonian")
        .insert(27, "Finnish")
        .insert(28, "French")
        .insert(29, "German")
        .insert(30, "Ghanaian")
        .insert(31, "Greek")
        .insert(32, "Guatemalan")
        .insert(33, "Honduran")
        .insert(34, "Hong Konger")
        .insert(35, "Hungarian")
        .insert(36, "Icelander")
        .insert(37, "Indian")
        .insert(38, "Indonesian")
        .insert(39, "Irish")
        .insert(40, "Israeli")
        .insert(41, "Italian")
        .insert(42, "Jamaican")
        .insert(43, "Japanese")
        .insert(44, "Jordanian")
        .insert(45, "Kuwaiti")
        .insert(46, "Latvian")
        .insert(47, "Lebanese")
        .insert(48, "Lithuanian")
        .insert(49, "Luxembourger")
        .insert(50, "Malaysian")
        .insert(51, "Maltese")
        .insert(52, "Mexican")
        .insert(53, "Monegasque")
        .insert(54, "New Zealander")
        .insert(55, "Nicaraguan")
        .insert(56, "North Korean")
        .insert(57, "Northern Irish")
        .insert(58, "Norwegian")
        .insert(59, "Omani")
        .insert(60, "Pakistani")
        .insert(61, "Panamanian")
        .insert(62, "Paraguayan")
        .insert(63, "Peruvian")
        .insert(64, "Polish")
        .insert(65, "Portuguese")
        .insert(66, "Qatari")
        .insert(67, "Romanian")
        .insert(68, "Russian")
        .insert(69, "Salvadoran")
        .insert(70, "Saudi")
        .insert(71, "Scottish")
        .insert(72, "Serbian")
        .insert(73, "Singaporean")
        .insert(74, "Slovakian")
        .insert(75, "Slovenian")
        .insert(76, "South Korean")
        .insert(77, "South African")
        .insert(78, "Spanish")
        .insert(79, "Swedish")
        .insert(80, "Swiss")
        .insert(81, "Thai")
        .insert(82, "Turkish")
        .insert(83, "Uruguayan")
        .insert(84, "Ukrainian")
        .insert(85, "Venezuelan")
        .insert(86, "Welsh")
}

/// Enters the nationalities into `map`, each under its id.
pub fn init_countries(map: &mut HashMap<usize, &str>)
    ensures
        final(map)@ == with_countries(old(map)@),
{
    map.insert(1, "American");
    map.insert(2, "Argentinean");
    map.insert(3, "Australian");
    map.insert(4, "Austrian");
    map.insert(5, "Azerbaijani");
    map.insert(6, "Bahraini");
    map.insert(7, "Belgian");
    map.insert(8, "Bolivian");
    map.insert(9, "Brazilian");
    map.insert(10, "British");
    map.insert(11, "Bulgarian");
    map.insert(12, "Cameroonian");
    map.insert(13, "Canadian");
    map.insert(14, "Chilean");
    map.insert(15, "Chinese");
    map.insert(16, "Colombian");
    map.insert(17, "Costa Rican");
    map.insert(18, "Croatian");
    map.insert(19, "Cypriot");
    map.insert(20, "Czech");
    map.insert(21, "Danish");
    map.insert(22, "Dutch");
    map.insert(23, "Ecuadorian");
    map.insert(24, "English");
    map.insert(25, "Emirian");
    map.insert(26, "Estonian");
    map.insert(27, "Finnish");
    map.insert(28, "French");
    map.insert(29, "German");
    map.insert(30, "Ghanaian");
    map.insert(31, "Greek");
    map.insert(32, "Guatemalan");
    map.insert(33, "Honduran");
    map.insert(34, "Hong Konger");
    map.insert(35, "Hungarian");
    map.insert(36, "Icelander");
    map.insert(37, "Indian");
    map.insert(38, "Indonesian");
    map.insert(39, "Irish");
    map.insert(40, "Israeli");
    map.insert(41, "Italian");
    map.insert(42, "Jamaican");
    map.insert(43, "Japanese");
    map.insert(44, "Jordanian");
    map.insert(45, "Kuwaiti");
    map.insert(46, "Latvian");
    map.insert(47, "Lebanese");
    map.insert(48, "Lithuanian");
    map.insert(49, "Luxembourger");
    map.insert(50, "Malaysian");
    map.insert(51, "Maltese");
    map.insert(52, "Mexican");
    map.insert(53, "Monegasque");
    map.insert(54, "New Zealander");
    map.insert(55, "Nicaraguan");
    map.insert(56, "North Korean");
    map.insert(57, "Northern Irish");
    map.insert(58, "Norwegian");
    map.insert(59, "Omani");
    map.insert(60, "Pakistani");
    map.insert(61, "Panamanian");
    map.insert(62, "Paraguayan");
    map.insert(63, "Peruvian");
    map.insert(64, "Polish");
    map.insert(65, "Portuguese");
    map.insert(66, "Qatari");
    map.insert(67, "Romanian");
    map.insert(68, "Russian");
    map.insert(69, "Salvadoran");
    map.insert(70, "Saudi");
    map.insert(71, "Scottish");
    map.insert(72, "Serbian");
    map.insert(73, "Singaporean");
    map.insert(74, "Slovakian");
    map.insert(75, "Slovenian");
    map.insert(76, "South Korean");
    map.insert(77, "South African");
    map.insert(78, "Spanish");
    map.insert(79, "Swedish");
    map.insert(80, "Swiss");
    map.insert(81, "Thai");
    map.insert(82, "Turkish");
    map.insert(83, "Uruguayan");
    map.insert(84, "Ukrainian");
    map.insert(85, "Venezuelan");
    map.insert(86, "Welsh");
}

/// `m` with each driving surface entered under its id.
pub open spec fn with_surfaces(m: Map<usize, &'static str>) -> Map<usize, &'static str> {
    m
        .insert(0, "Tarmac")
        .insert(1, "Rumble strip")
        .insert(2, "Concrete")
        .insert(3, "Rock")
        .insert(4, "Gravel")
        .insert(5, "Mud")
        .insert(6, "Sand")
        .insert(7, "Grass")
        .insert(8, "Water")
        .insert(9, "Cobblestone")
        .insert(10, "Metal")
        .insert(11, "Ridged")
}

/// Enters the driving surfaces into `map`, each under its id.
pub fn init_surfaces(map: &mut HashMap<usize, &str>)
    ensures
        final(map)@ == with_surfaces(old(map)@),
{
    map.insert(0, "Tarmac");
    map.insert(1, "Rumble strip");
    map.insert(2, "Concrete");
    map.insert(3, "Rock");
    map.insert(4, "Gravel");
    map.insert(5, "Mud");
    map.insert(6, "Sand");
    map.insert(7, "Grass");
    map.insert(8, "Water");
    map.insert(9, "Cobblestone");
    map.insert(10, "Metal");
    map.insert(11, "Ridged");
}

/// `m` with each button entered under its bit of the button state.
pub open spec fn with_button_flags(m: Map<u32, &'static str>) -> Map<u32, &'static str> {
    m
        .insert(0x0001, "Cross or A")
        .insert(0x0002, "Triangle or Y")
        .insert(0x0004, "Circle or B")
        .insert(0x0008, "Square or X")
        .insert(0x0010, "D-pad Left")
        .insert(0x0020, "D-pad Right")
        .insert(0x0040, "D-pad Up")
        .insert(0x0080, "D-pad Down")
        .insert(0x0100, "Options or Menu")
        .insert(0x0200, "L1 or LB")
        .insert(0x0400, "R1 or RB")
        .insert(0x0800, "L2 or LT")
        .insert(0x1000, "R2 or RT")
        .insert(0x2000, "Left Stick Click")
        .insert(0x4000, "Right Stick Click")
}

/// Enters the buttons into `map`, each under the bit that stands for it in
/// the button state of a telemetry packet.
pub fn init_button_flags(map: &mut HashMap<u32, &str>)
    ensures
        final(map)@ == with_button_flags(old(map)@),
{
    map.insert(0x0001, "Cross or A");
    map.insert(0x0002, "Triangle or Y");
    map.insert(0x0004, "Circle or B");
    map.insert(0x0008, "Square or X");
    map.insert(0x0010, "D-pad Left");
    map.insert(0x0020, "D-pad Right");
    map.insert(0x0040, "D-pad Up");
    map.insert(0x0080, "D-pad Down");
    map.insert(0x0100, "Options or Menu");
    map.insert(0x0200, "L1 or LB");
    map.insert(0x0400, "R1 or RB");
    map.insert(0x0800, "L2 or LT");
    map.insert(0x1000, "R2 or RT");
    map.insert(0x2000, "Left Stick Click");
    map.insert(0x4000, "Right Stick Click");
}

} // verus!
